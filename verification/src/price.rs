//! The price of a journey as shown: the amount in the format of its currency.

use vstd::prelude::*;

use crate::i18n::{gettext, translation_of};
use crate::journey::Price;
use crate::text::{replace_all, replaced, text_eq};

verus! {

/// The message id of the format of a currency: euros and US dollars have
/// their signs; any other currency is written by its code.
pub open spec fn price_msgid(currency: Seq<char>) -> Seq<char> {
    if currency == "EUR"@ {
        "€{amount}"@
    } else if currency == "USD"@ {
        "${amount}"@
    } else {
        "{currency} {amount}"@
    }
}

/// The price shown for a format `template` (the translation of the message
/// id): the amount in place of `{amount}`, and for a currency without its
/// own format the code in place of `{currency}`.
pub open spec fn price_filled(template: Seq<char>, currency: Seq<char>, amount: Seq<char>) -> Seq<char> {
    let with_amount = replaced(template, "{amount}"@, amount);
    if currency == "EUR"@ || currency == "USD"@ {
        with_amount
    } else {
        replaced(with_amount, "{currency}"@, currency)
    }
}

/// The message id of the format of `currency`.
pub fn format_msgid(currency: &str) -> (r: &'static str)
    ensures
        r@ == price_msgid(currency@),
{
    if text_eq(currency, "EUR") {
        "€{amount}"
    } else if text_eq(currency, "USD") {
        "${amount}"
    } else {
        "{currency} {amount}"
    }
}

impl Price {
    /// The price shown for the format `template`.
    pub fn fill(&self, template: &str) -> (r: String)
        ensures
            r@ == price_filled(template@, self.currency@, self.amount@),
    {
        proof {
            reveal_strlit("{amount}");
            reveal_strlit("{currency}");
        }
        let with_amount = replace_all(template, "{amount}", self.amount.as_str());
        if text_eq(self.currency.as_str(), "EUR") || text_eq(self.currency.as_str(), "USD") {
            with_amount
        } else {
            replace_all(with_amount.as_str(), "{currency}", self.currency.as_str())
        }
    }

    /// The price as shown: the translated format of its currency, filled.
    /// The translation depends on the locale; whatever it is, the result is
    /// that translation of the currency's format filled with the amount and
    /// currency.
    pub fn formatted(&self) -> (r: String)
        ensures
            exists|template: Seq<char>|
                translation_of(price_msgid(self.currency@), template) && r@ == price_filled(
                    template,
                    self.currency@,
                    self.amount@,
                ),
    {
        let template = gettext(format_msgid(self.currency.as_str()));
        let r = self.fill(template.as_str());
        assert(r@ == price_filled(template@, self.currency@, self.amount@));
        r
    }
}

} // verus!

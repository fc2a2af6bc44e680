//! Translation of the texts shown to the user.
//!
//! What a message id translates to depends on the locale of the process and
//! the message catalogs installed.  A translation is therefore known only as
//! a translation of its message id (`translation_of`): the text the catalog
//! holds for it, or the message id itself where the catalog holds none.  The
//! functions that build labels from translations state which message id each
//! template translates, and have variants that take the translated template
//! as an argument and state exactly what they make of it.

use vstd::prelude::*;

use crate::text::has_nul;

verus! {

/// Whether the message catalogs of the current locale translate the
/// message `msgid` as `t`.
pub uninterp spec fn catalog_text(msgid: Seq<char>, t: Seq<char>) -> bool;

/// Whether the message catalogs of the current locale translate the message
/// with singular `msgid` and plural `msgid_plural`, for the count `n`, as
/// `t`.
pub uninterp spec fn catalog_plural_text(msgid: Seq<char>, msgid_plural: Seq<char>, n: u32, t: Seq<char>) -> bool;

/// Whether `t` is a translation of the message `msgid`: the text the
/// catalog holds for it, or `msgid` itself.
pub open spec fn translation_of(msgid: Seq<char>, t: Seq<char>) -> bool {
    t == msgid || catalog_text(msgid, t)
}

/// The untranslated form of a message for the count `n`: the singular for
/// one, the plural otherwise.
pub open spec fn plural_form(msgid: Seq<char>, msgid_plural: Seq<char>, n: u32) -> Seq<char> {
    if n == 1 {
        msgid
    } else {
        msgid_plural
    }
}

/// Whether `t` is a translation of a message with a plural for the count
/// `n`: the form the catalog holds for that count, or the untranslated form.
pub open spec fn plural_translation_of(msgid: Seq<char>, msgid_plural: Seq<char>, n: u32, t: Seq<char>) -> bool {
    t == plural_form(msgid, msgid_plural, n) || catalog_plural_text(msgid, msgid_plural, n, t)
}

/// Calls `gettextrs::gettext`, which looks `msgid` up in the message catalog
/// of the current locale; its result is a translation of `msgid`, which
/// depends on the locale and the catalogs installed.  The function panics
/// on a message id holding a NUL character, which `requires` leaves out.  It
/// also panics on a catalog text that is not UTF-8; no argument can rule
/// that out, and the application binds the codeset of its text domain to
/// UTF-8 before any lookup, as the crate's documentation asks, so that the
/// catalog's texts are handed out in UTF-8.
#[verifier::external_body]
fn gettext_call(msgid: &str) -> (r: String)
    requires
        !msgid@.contains('\0'),
    ensures
        r@ == msgid@ || catalog_text(msgid@, r@),
{
    gettextrs::gettext(msgid)
}

/// Calls `gettextrs::ngettext`, which picks the singular or plural form of a
/// message for the count `n` and translates it for the current locale; its
/// result is a translation of that form.  It panics on a message id holding
/// a NUL character, which `requires` leaves out, and on a catalog text that
/// is not UTF-8, which the application rules out as for `gettext_call`.
#[verifier::external_body]
fn ngettext_call(msgid: &str, msgid_plural: &str, n: u32) -> (r: String)
    requires
        !msgid@.contains('\0'),
        !msgid_plural@.contains('\0'),
    ensures
        r@ == (if n == 1 {
            msgid@
        } else {
            msgid_plural@
        }) || catalog_plural_text(msgid@, msgid_plural@, n, r@),
{
    gettextrs::ngettext(msgid, msgid_plural, n)
}

/// The translation of `msgid`; a message id holding a NUL character cannot
/// be looked up and is returned as it is.
pub fn gettext(msgid: &str) -> (r: String)
    ensures
        msgid@.contains('\0') ==> r@ == msgid@,
        translation_of(msgid@, r@),
{
    if has_nul(msgid) {
        String::from_str(msgid)
    } else {
        gettext_call(msgid)
    }
}

/// The translation of the singular or plural form of a message for the
/// count `n`; message ids holding a NUL character are not looked up, and the
/// singular is returned for a count of one, the plural otherwise.
pub fn ngettext(msgid: &str, msgid_plural: &str, n: u32) -> (r: String)
    ensures
        (msgid@.contains('\0') || msgid_plural@.contains('\0')) ==> r@ == (if n == 1 {
            msgid@
        } else {
            msgid_plural@
        }),
        plural_translation_of(msgid@, msgid_plural@, n, r@),
{
    if has_nul(msgid) || has_nul(msgid_plural) {
        if n == 1 {
            String::from_str(msgid)
        } else {
            String::from_str(msgid_plural)
        }
    } else {
        ngettext_call(msgid, msgid_plural, n)
    }
}

} // verus!

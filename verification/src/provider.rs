//! The providers of timetable data that can be searched, and the provider
//! chosen in the settings.

use vstd::prelude::*;

use crate::i18n::{gettext, translation_of};
use crate::text::text_eq;

verus! {

/// The id of the application; its icon stands for providers without one.
pub const APP_ID: &'static str = "de.schmidhuberj.DieBahn";

/// The lower-case form of a text, as Unicode defines it.
pub uninterp spec fn lowercase(s: Seq<char>) -> Seq<char>;

/// Whether every character of a text is ASCII.
pub open spec fn is_ascii_text(s: Seq<char>) -> bool {
    forall|i: int| 0 <= i < s.len() ==> (s[i] as u32) < 128
}

/// A text with its ASCII upper-case letters made lower-case.
pub open spec fn ascii_lower(s: Seq<char>) -> Seq<char> {
    s.map_values(|c: char| if 'A' <= c <= 'Z' { ((c as u32) + 32) as char } else { c })
}

/// Calls `str::to_lowercase`, which maps every character to its lower-case
/// form as Unicode defines it; on an ASCII text, as its documentation says,
/// that is the ASCII lower-case form of each letter.  The general mapping
/// takes pages to state and is only named.
#[verifier::external_body]
fn lowercase_call(s: &str) -> (r: String)
    ensures
        r@ == lowercase(s@),
        is_ascii_text(s@) ==> r@ == ascii_lower(s@),
{
    s.to_lowercase()
}

/// A provider of timetable data.
#[derive(Debug, Clone)]
pub struct Provider {
    /// The id the provider is chosen by.
    pub id: String,
    /// A short name.
    pub short_name: String,
    /// A longer name, if any.
    pub name: Option<String>,
    /// The name of the icon shown.
    pub icon_name: String,
    /// The region the provider is listed under.
    pub regional_group: String,
}

/// The icon of a provider: the lower-case id when it has an icon of its
/// own, else the icon of the application.
pub open spec fn icon_for(id: Seq<char>, has_icon: bool) -> Seq<char> {
    if has_icon {
        lowercase(id)
    } else {
        APP_ID@
    }
}

impl Provider {
    /// A provider; its icon is the lower-case id when `has_icon`, else the
    /// icon of the application.
    pub fn new(id: &str, short_name: &str, name: Option<&str>, regional_group: &str, has_icon: bool) -> (r: Provider)
        ensures
            r.id@ == id@,
            r.short_name@ == short_name@,
            match name {
                Some(n) => r.name matches Some(m) && m@ == n@,
                None => r.name is None,
            },
            r.icon_name@ == icon_for(id@, has_icon),
            has_icon && is_ascii_text(id@) ==> r.icon_name@ == ascii_lower(id@),
            r.regional_group@ == regional_group@,
    {
        let icon_name = if has_icon {
            lowercase_call(id)
        } else {
            String::from_str(APP_ID)
        };
        Provider {
            id: String::from_str(id),
            short_name: String::from_str(short_name),
            name: match name {
                Some(n) => Some(String::from_str(n)),
                None => None,
            },
            icon_name,
            regional_group: String::from_str(regional_group),
        }
    }
}

/// A label of the list of providers: a fixed text, or a message id whose
/// translation is shown.
pub enum Label {
    /// A fixed text.
    Text(Seq<char>),
    /// The translation of a message id.
    Translated(Seq<char>),
}

/// A label of the list, as given to the code that builds it.
pub enum Text {
    /// A fixed text.
    Fixed(&'static str),
    /// The translation of a message id.
    Translated(&'static str),
}

/// The label a text stands for.
pub open spec fn label_of(t: Text) -> Label {
    match t {
        Text::Fixed(s) => Label::Text(s@),
        Text::Translated(m) => Label::Translated(m@),
    }
}

/// Whether `s` is what label `l` shows: the fixed text itself, or a
/// translation of the message id, which depends on the locale.
pub open spec fn shows(l: Label, s: Seq<char>) -> bool {
    match l {
        Label::Text(t) => s == t,
        Label::Translated(m) => translation_of(m, s),
    }
}

/// The providers listed: id, short name, name and region, in the order
/// shown.  Every provider has an icon of its own.
pub open spec fn provider_table() -> Seq<(Seq<char>, Label, Label, Label)> {
    seq![
        ("AVV"@, Label::Text("AVV"@), Label::Text("Aachener Verkehrsverbund"@), Label::Translated("Germany"@)),
        ("BART"@, Label::Text("BART"@), Label::Text("Bay Area Rapid Transit"@), Label::Translated("North America"@)),
        ("BLS"@, Label::Text("BLS"@), Label::Text("BLS AG"@), Label::Translated("Europe"@)),
        ("CFL"@, Label::Text("CFL"@), Label::Text("Société Nationale des Chemins de Fer Luxembourgeois"@), Label::Translated("Europe"@)),
        ("CMTA"@, Label::Text("CapMetro"@), Label::Text("Austin, Texas"@), Label::Translated("North America"@)),
        ("DART"@, Label::Text("DART"@), Label::Text("Des Moines Area Rapid Transit"@), Label::Translated("North America"@)),
        ("DB"@, Label::Text("DB"@), Label::Text("Deutsche Bahn"@), Label::Translated("Germany"@)),
        ("VGI"@, Label::Text("VGI"@), Label::Text("Verkehrsgemeinschaft Region Ingolstadt"@), Label::Translated("Germany"@)),
        ("Irish-Rail"@, Label::Text("Irish Rail"@), Label::Text("Iarnród Éireann"@), Label::Translated("Europe"@)),
        ("IVB"@, Label::Text("IVB"@), Label::Text("Innsbrucker Verkehrsbetriebe"@), Label::Translated("Europe"@)),
        ("KVB"@, Label::Text("KVB"@), Label::Text("Kölner Verkehrs-Betriebe"@), Label::Translated("Germany"@)),
        ("Mobiliteit-Lu"@, Label::Text("Mobiliteit"@), Label::Text("Luxembourg"@), Label::Translated("Europe"@)),
        ("NVV"@, Label::Text("NVV"@), Label::Text("Nordhessischer Verkehrsverbund"@), Label::Translated("Germany"@)),
        ("NahSH"@, Label::Text("Nah.SH"@), Label::Translated("Schleswig-Holstein"@), Label::Translated("Germany"@)),
        ("ooevv"@, Label::Text("OÖVV"@), Label::Text("Oberösterreichischer Verkehrsverbund"@), Label::Translated("Europe"@)),
        ("OEBB"@, Label::Text("ÖBB"@), Label::Text("Österreichische Bundesbahnen"@), Label::Translated("Europe"@)),
        ("PKP"@, Label::Text("PKP"@), Label::Text("Polskie Koleje Państwowe"@), Label::Translated("Europe"@)),
        ("RMV"@, Label::Text("RMV"@), Label::Text("Rhein-Main-Verkehrsverbund"@), Label::Translated("Germany"@)),
        ("RSAG"@, Label::Text("RSAG"@), Label::Text("Rostocker Straßenbahn AG"@), Label::Translated("Germany"@)),
        ("Rejseplanen"@, Label::Text("Rejseplanen"@), Label::Text("Denmark"@), Label::Translated("Europe"@)),
        ("Resrobot"@, Label::Text("Resrobot"@), Label::Text("Sweden"@), Label::Translated("Europe"@)),
        ("SBahn-Muenchen"@, Label::Text("S-Bahn München"@), Label::Translated("Germany"@), Label::Translated("Germany"@)),
        ("Verbundlinie"@, Label::Text("Verbundlinie"@), Label::Text("Steirischer Verkehrsverbund"@), Label::Translated("Europe"@)),
        ("SVV"@, Label::Text("SVV"@), Label::Text("Salzburger Verkehrsverbund"@), Label::Translated("Europe"@)),
        ("saarvv"@, Label::Text("saarVV"@), Label::Text("Saarfahrplan/VGS Saarland"@), Label::Translated("Germany"@)),
        ("Salzburg"@, Label::Text("Salzburg"@), Label::Translated("Austria"@), Label::Translated("Europe"@)),
        ("VBB"@, Label::Text("VBB"@), Label::Text("Berlin & Brandenburg public transport"@), Label::Translated("Germany"@)),
        ("VBN"@, Label::Text("VBN"@), Label::Text("Verkehrsverbund Bremen/Niedersachsen"@), Label::Translated("Germany"@)),
        ("VKG"@, Label::Text("VKG/VVK"@), Label::Text("Kärntner Linien/Verkehrsverbund Kärnten"@), Label::Translated("Europe"@)),
        ("VMT"@, Label::Text("VMT"@), Label::Text("Verkehrsverbund Mittelthüringen"@), Label::Translated("Germany"@)),
        ("VOR"@, Label::Text("VOR"@), Label::Text("Verkehrsverbund Ost-Region"@), Label::Translated("Europe"@)),
        ("VOS"@, Label::Text("VOS"@), Label::Text("Verkehrsgemeinschaft Osnabrück"@), Label::Translated("Germany"@)),
        ("VRN"@, Label::Text("VRN"@), Label::Text("Verkehrsverbund Rhein-Neckar"@), Label::Translated("Germany"@)),
        ("VSN"@, Label::Text("VSN"@), Label::Text("Verkehrsverbund Süd-Niedersachsen"@), Label::Translated("Germany"@)),
        ("VVT"@, Label::Text("VVT"@), Label::Text("Verkehrsverbund Tirol"@), Label::Translated("Europe"@)),
        ("VVV"@, Label::Text("VVV"@), Label::Text("Verkehrsverbund Vorarlberg"@), Label::Translated("Europe"@)),
        ("search-ch"@, Label::Text("SBB"@), Label::Text("Switzerland"@), Label::Translated("Europe"@)),
        ("transitous"@, Label::Translated("Worldwide (beta)"@), Label::Translated("Using Transitous"@), Label::Text(""@)),
    ]
}

/// The ids of a list of providers.
pub open spec fn provider_ids(ps: Seq<Provider>) -> Seq<Seq<char>> {
    ps.map_values(|p: Provider| p.id@)
}

/// Whether a provider is the entry `e` of the table.
pub open spec fn is_entry(p: Provider, e: (Seq<char>, Label, Label, Label)) -> bool {
    &&& p.id@ == e.0
    &&& shows(e.1, p.short_name@)
    &&& p.name matches Some(n) && shows(e.2, n@)
    &&& shows(e.3, p.regional_group@)
    &&& p.icon_name@ == lowercase(e.0)
}

/// The text a label shows.
fn resolve(t: Text) -> (r: String)
    ensures
        shows(label_of(t), r@),
{
    match t {
        Text::Fixed(s) => String::from_str(s),
        Text::Translated(m) => gettext(m),
    }
}

/// The provider of one entry of the list.
fn entry(id: &'static str, short_name: Text, name: Text, region: Text) -> (r: Provider)
    ensures
        is_entry(r, (id@, label_of(short_name), label_of(name), label_of(region))),
{
    let s = resolve(short_name);
    let n = resolve(name);
    let g = resolve(region);
    Provider::new(id, s.as_str(), Some(n.as_str()), g.as_str(), true)
}

/// The providers that can be searched, in the order listed.
#[verifier::rlimit(60)]
pub fn providers() -> (r: Vec<Provider>)
    ensures
        r@.len() == provider_table().len(),
        forall|i: int| 0 <= i < r@.len() ==> is_entry(#[trigger] r@[i], provider_table()[i]),
{
    let mut v: Vec<Provider> = Vec::new();
    v.push(entry("AVV", Text::Fixed("AVV"), Text::Fixed("Aachener Verkehrsverbund"), Text::Translated("Germany")));
    v.push(entry("BART", Text::Fixed("BART"), Text::Fixed("Bay Area Rapid Transit"), Text::Translated("North America")));
    v.push(entry("BLS", Text::Fixed("BLS"), Text::Fixed("BLS AG"), Text::Translated("Europe")));
    v.push(entry("CFL", Text::Fixed("CFL"), Text::Fixed("Société Nationale des Chemins de Fer Luxembourgeois"), Text::Translated("Europe")));
    v.push(entry("CMTA", Text::Fixed("CapMetro"), Text::Fixed("Austin, Texas"), Text::Translated("North America")));
    v.push(entry("DART", Text::Fixed("DART"), Text::Fixed("Des Moines Area Rapid Transit"), Text::Translated("North America")));
    v.push(entry("DB", Text::Fixed("DB"), Text::Fixed("Deutsche Bahn"), Text::Translated("Germany")));
    v.push(entry("VGI", Text::Fixed("VGI"), Text::Fixed("Verkehrsgemeinschaft Region Ingolstadt"), Text::Translated("Germany")));
    v.push(entry("Irish-Rail", Text::Fixed("Irish Rail"), Text::Fixed("Iarnród Éireann"), Text::Translated("Europe")));
    v.push(entry("IVB", Text::Fixed("IVB"), Text::Fixed("Innsbrucker Verkehrsbetriebe"), Text::Translated("Europe")));
    v.push(entry("KVB", Text::Fixed("KVB"), Text::Fixed("Kölner Verkehrs-Betriebe"), Text::Translated("Germany")));
    v.push(entry("Mobiliteit-Lu", Text::Fixed("Mobiliteit"), Text::Fixed("Luxembourg"), Text::Translated("Europe")));
    v.push(entry("NVV", Text::Fixed("NVV"), Text::Fixed("Nordhessischer Verkehrsverbund"), Text::Translated("Germany")));
    v.push(entry("NahSH", Text::Fixed("Nah.SH"), Text::Translated("Schleswig-Holstein"), Text::Translated("Germany")));
    v.push(entry("ooevv", Text::Fixed("OÖVV"), Text::Fixed("Oberösterreichischer Verkehrsverbund"), Text::Translated("Europe")));
    v.push(entry("OEBB", Text::Fixed("ÖBB"), Text::Fixed("Österreichische Bundesbahnen"), Text::Translated("Europe")));
    v.push(entry("PKP", Text::Fixed("PKP"), Text::Fixed("Polskie Koleje Państwowe"), Text::Translated("Europe")));
    v.push(entry("RMV", Text::Fixed("RMV"), Text::Fixed("Rhein-Main-Verkehrsverbund"), Text::Translated("Germany")));
    v.push(entry("RSAG", Text::Fixed("RSAG"), Text::Fixed("Rostocker Straßenbahn AG"), Text::Translated("Germany")));
    v.push(entry("Rejseplanen", Text::Fixed("Rejseplanen"), Text::Fixed("Denmark"), Text::Translated("Europe")));
    v.push(entry("Resrobot", Text::Fixed("Resrobot"), Text::Fixed("Sweden"), Text::Translated("Europe")));
    v.push(entry("SBahn-Muenchen", Text::Fixed("S-Bahn München"), Text::Translated("Germany"), Text::Translated("Germany")));
    v.push(entry("Verbundlinie", Text::Fixed("Verbundlinie"), Text::Fixed("Steirischer Verkehrsverbund"), Text::Translated("Europe")));
    v.push(entry("SVV", Text::Fixed("SVV"), Text::Fixed("Salzburger Verkehrsverbund"), Text::Translated("Europe")));
    v.push(entry("saarvv", Text::Fixed("saarVV"), Text::Fixed("Saarfahrplan/VGS Saarland"), Text::Translated("Germany")));
    v.push(entry("Salzburg", Text::Fixed("Salzburg"), Text::Translated("Austria"), Text::Translated("Europe")));
    v.push(entry("VBB", Text::Fixed("VBB"), Text::Fixed("Berlin & Brandenburg public transport"), Text::Translated("Germany")));
    v.push(entry("VBN", Text::Fixed("VBN"), Text::Fixed("Verkehrsverbund Bremen/Niedersachsen"), Text::Translated("Germany")));
    v.push(entry("VKG", Text::Fixed("VKG/VVK"), Text::Fixed("Kärntner Linien/Verkehrsverbund Kärnten"), Text::Translated("Europe")));
    v.push(entry("VMT", Text::Fixed("VMT"), Text::Fixed("Verkehrsverbund Mittelthüringen"), Text::Translated("Germany")));
    v.push(entry("VOR", Text::Fixed("VOR"), Text::Fixed("Verkehrsverbund Ost-Region"), Text::Translated("Europe")));
    v.push(entry("VOS", Text::Fixed("VOS"), Text::Fixed("Verkehrsgemeinschaft Osnabrück"), Text::Translated("Germany")));
    v.push(entry("VRN", Text::Fixed("VRN"), Text::Fixed("Verkehrsverbund Rhein-Neckar"), Text::Translated("Germany")));
    v.push(entry("VSN", Text::Fixed("VSN"), Text::Fixed("Verkehrsverbund Süd-Niedersachsen"), Text::Translated("Germany")));
    v.push(entry("VVT", Text::Fixed("VVT"), Text::Fixed("Verkehrsverbund Tirol"), Text::Translated("Europe")));
    v.push(entry("VVV", Text::Fixed("VVV"), Text::Fixed("Verkehrsverbund Vorarlberg"), Text::Translated("Europe")));
    v.push(entry("search-ch", Text::Fixed("SBB"), Text::Fixed("Switzerland"), Text::Translated("Europe")));
    v.push(entry("transitous", Text::Translated("Worldwide (beta)"), Text::Translated("Using Transitous"), Text::Fixed("")));
    assert(v@.len() == provider_table().len());
    v
}

/// The provider chosen by the setting `search_provider`: the first listed
/// with that id, if any.
pub fn current_provider(search_provider: &str) -> (r: Option<Provider>)
    ensures
        match r {
            Some(p) => p.id@ == search_provider@ && exists|i: int|
                0 <= i < provider_table().len() && is_entry(p, #[trigger] provider_table()[i]),
            None => forall|i: int|
                0 <= i < provider_table().len() ==> (#[trigger] provider_table()[i]).0 != search_provider@,
        },
{
    let mut list = providers();
    let n = list.len();
    let mut i: usize = 0;
    while i < n
        invariant
            n == list@.len(),
            n == provider_table().len(),
            i <= n,
            forall|k: int| 0 <= k < n ==> is_entry(#[trigger] list@[k], provider_table()[k]),
            forall|k: int| 0 <= k < i ==> (#[trigger] provider_table()[k]).0 != search_provider@,
        decreases n - i,
    {
        assert(is_entry(list@[i as int], provider_table()[i as int]));
        if text_eq(list[i].id.as_str(), search_provider) {
            let p = list.remove(i);
            return Some(p);
        }
        i += 1;
    }
    None
}

} // verus!

use vstd::prelude::*;
use vstd::string::StrSliceExecFns;
use vstd::string::StringExecFns;

use crate::paint::paint_mode_of_text;
use crate::paint::PaintMode;
use crate::text::str_eq;

verus! {

// ---------------------------------------------------------------------
// Value grammars
// ---------------------------------------------------------------------
/// The value of one decimal digit; `None` for any other character.
pub open spec fn digit_value(c: char) -> Option<u32> {
    match c {
        '0' => Some(0u32),
        '1' => Some(1u32),
        '2' => Some(2u32),
        '3' => Some(3u32),
        '4' => Some(4u32),
        '5' => Some(5u32),
        '6' => Some(6u32),
        '7' => Some(7u32),
        '8' => Some(8u32),
        '9' => Some(9u32),
        _ => None,
    }
}

/// Whether every character of `s` is a decimal digit.
pub open spec fn all_digits(s: Seq<char>) -> bool {
    forall|i: int| 0 <= i < s.len() ==> digit_value(s[i]) is Some
}

/// The number the digit string `s` denotes, most significant digit
/// first; characters that are not digits count as zero.
pub open spec fn digits_value(s: Seq<char>) -> nat
    decreases s.len(),
{
    if s.len() == 0 {
        0
    } else {
        digits_value(s.drop_last()) * 10 + (match digit_value(s.last()) {
            Some(d) => d as nat,
            None => 0,
        })
    }
}

/// The unsigned-integer grammar: one or more decimal digits denoting a
/// value that fits in 32 bits; anything else is rejected.
pub open spec fn parse_u32_text(s: Seq<char>) -> Option<u32> {
    if s.len() > 0 && all_digits(s) && digits_value(s) <= u32::MAX {
        Some(digits_value(s) as u32)
    } else {
        None
    }
}

/// The boolean grammar: exactly `true` or `false`, case-sensitively.
pub open spec fn parse_bool_text(s: Seq<char>) -> Option<bool> {
    if s == "true"@ {
        Some(true)
    } else if s == "false"@ {
        Some(false)
    } else {
        None
    }
}

/// A longer digit string never denotes a smaller number: the value of a
/// prefix is a lower bound for the value of the whole.
proof fn lemma_digits_value_mono(s: Seq<char>, i: int)
    requires
        0 <= i <= s.len(),
    ensures
        digits_value(s) >= digits_value(s.take(i)),
    decreases s.len() - i,
{
    if i == s.len() {
        assert(s.take(i) =~= s);
    } else {
        assert(s.take(i + 1).drop_last() =~= s.take(i));
        assert(s.take(i + 1).last() == s[i]);
        assert(digits_value(s.take(i + 1)) >= digits_value(s.take(i)));
        lemma_digits_value_mono(s, i + 1);
    }
}

/// Executable counterpart of `digit_value`.
fn digit_of(c: char) -> (r: Option<u32>)
    ensures
        r == digit_value(c),
{
    match c {
        '0' => Some(0u32),
        '1' => Some(1u32),
        '2' => Some(2u32),
        '3' => Some(3u32),
        '4' => Some(4u32),
        '5' => Some(5u32),
        '6' => Some(6u32),
        '7' => Some(7u32),
        '8' => Some(8u32),
        '9' => Some(9u32),
        _ => None,
    }
}

/// Parses a decimal unsigned integer, rejecting the empty string, any
/// non-digit character, and values that do not fit in 32 bits.
pub fn parse_u32(s: &str) -> (r: Option<u32>)
    ensures
        r == parse_u32_text(s@),
{
    let n = s.unicode_len();
    if n == 0 {
        return None;
    }
    let mut acc: u64 = 0;
    let mut i: usize = 0;
    proof {
        assert(s@.take(0) =~= Seq::<char>::empty());
    }
    while i < n
        invariant
            n == s@.len(),
            0 <= i <= n,
            forall|j: int| 0 <= j < i ==> digit_value(s@[j]) is Some,
            acc == digits_value(s@.take(i as int)),
            acc <= u32::MAX,
        decreases n - i,
    {
        let c = s.get_char(i);
        let d: u32 = match digit_of(c) {
            Some(d) => d,
            None => {
                assert(!all_digits(s@));
                return None;
            },
        };
        proof {
            assert(s@.take(i + 1).drop_last() =~= s@.take(i as int));
            assert(s@.take(i + 1).last() == s@[i as int]);
        }
        acc = acc * 10 + d as u64;
        i = i + 1;
        if acc > u32::MAX as u64 {
            proof {
                lemma_digits_value_mono(s@, i as int);
            }
            return None;
        }
    }
    proof {
        assert(s@.take(n as int) =~= s@);
    }
    Some(acc as u32)
}

/// Parses a boolean: exactly `true` or `false`.
pub fn parse_bool(s: &str) -> (r: Option<bool>)
    ensures
        r == parse_bool_text(s@),
{
    if str_eq(s, "true") {
        Some(true)
    } else if str_eq(s, "false") {
        Some(false)
    } else {
        None
    }
}

// ---------------------------------------------------------------------
// The configuration record
// ---------------------------------------------------------------------
/// The mathematical value of a configuration record.
pub ghost struct ConfigV {
    pub save_dir: Seq<char>,
    pub save_filename_format: Seq<char>,
    pub line_size: u32,
    pub text_font: Seq<char>,
    pub text_size: u32,
    pub show_panel: bool,
    pub paint_mode: PaintMode,
    pub early_exit: bool,
    pub fill_shape: bool,
}

impl ConfigV {
    /// Every field holds a value of its semantic type; beyond what the
    /// field types already give, the two sizes are strictly positive.
    pub open spec fn wf(self) -> bool {
        self.line_size >= 1 && self.text_size >= 1
    }
}

/// The configuration record: built once at startup and read-only
/// afterwards.
#[derive(Debug, Clone, PartialEq)]
pub struct Config {
    pub save_dir: String,
    pub save_filename_format: String,
    pub line_size: u32,
    pub text_font: String,
    pub text_size: u32,
    pub show_panel: bool,
    pub paint_mode: PaintMode,
    pub early_exit: bool,
    pub fill_shape: bool,
}

impl View for Config {
    type V = ConfigV;

    open spec fn view(&self) -> ConfigV {
        ConfigV {
            save_dir: self.save_dir@,
            save_filename_format: self.save_filename_format@,
            line_size: self.line_size,
            text_font: self.text_font@,
            text_size: self.text_size,
            show_panel: self.show_panel,
            paint_mode: self.paint_mode,
            early_exit: self.early_exit,
            fill_shape: self.fill_shape,
        }
    }
}

/// The built-in defaults, parameterized by the probed save directory.
pub open spec fn default_config_v(save_dir: Seq<char>) -> ConfigV {
    ConfigV {
        save_dir: save_dir,
        save_filename_format: "swappy-%Y%m%d_%H%M%S.png"@,
        line_size: 5,
        text_font: "sans-serif"@,
        text_size: 20,
        show_panel: false,
        paint_mode: PaintMode::Brush,
        early_exit: false,
        fill_shape: false,
    }
}

impl Default for Config {
    /// The defaults record: every field at its built-in default, the
    /// save directory at whatever the prober chose.
    fn default() -> (c: Config)
        ensures
            c@ == default_config_v(c@.save_dir),
            c@.wf(),
    {
        Config {
            save_dir: crate::probe::get_default_save_dir(),
            save_filename_format: "swappy-%Y%m%d_%H%M%S.png".to_owned(),
            line_size: 5,
            text_font: "sans-serif".to_owned(),
            text_size: 20,
            show_panel: false,
            paint_mode: PaintMode::Brush,
            early_exit: false,
            fill_shape: false,
        }
    }
}

// ---------------------------------------------------------------------
// The configuration document
// ---------------------------------------------------------------------
/// One `key = value` line of the configuration document.
pub struct IniProp {
    pub key: String,
    pub value: String,
}

/// The mathematical value of one `key = value` line.
pub ghost struct PropV {
    pub key: Seq<char>,
    pub value: Seq<char>,
}

impl View for IniProp {
    type V = PropV;

    open spec fn view(&self) -> PropV {
        PropV { key: self.key@, value: self.value@ }
    }
}

/// One section of the configuration document; `name` is `None` for the
/// sectionless head of the file.
pub struct IniSection {
    pub name: Option<String>,
    pub props: Vec<IniProp>,
}

/// The mathematical value of one section.
pub ghost struct SectionV {
    pub name: Option<Seq<char>>,
    pub props: Seq<PropV>,
}

impl View for IniSection {
    type V = SectionV;

    open spec fn view(&self) -> SectionV {
        SectionV {
            name: match self.name {
                Some(n) => Some(n@),
                None => None,
            },
            props: self.props@.map_values(|p: IniProp| p@),
        }
    }
}

/// The sections of a document as mathematical values.
pub open spec fn sections_of(ss: Seq<IniSection>) -> Seq<SectionV> {
    ss.map_values(|s: IniSection| s@)
}

/// The set of keys the loader recognizes.
pub open spec fn recognized_key(k: Seq<char>) -> bool {
    ||| k == "save_dir"@
    ||| k == "save_filename_format"@
    ||| k == "line_size"@
    ||| k == "text_font"@
    ||| k == "text_size"@
    ||| k == "show_panel"@
    ||| k == "paint_mode"@
    ||| k == "early_exit"@
    ||| k == "fill_shape"@
}

// ---------------------------------------------------------------------
// Overlay semantics
// ---------------------------------------------------------------------
/// What one `key = value` line does to the record: a recognized key
/// whose value meets its grammar overwrites its field; every other line
/// leaves the record unchanged.
pub open spec fn apply_prop_v(c: ConfigV, key: Seq<char>, value: Seq<char>) -> ConfigV {
    if key == "save_dir"@ {
        ConfigV { save_dir: value, ..c }
    } else if key == "save_filename_format"@ {
        ConfigV { save_filename_format: value, ..c }
    } else if key == "line_size"@ {
        match parse_u32_text(value) {
            Some(n) => if n >= 1 {
                ConfigV { line_size: n, ..c }
            } else {
                c
            },
            None => c,
        }
    } else if key == "text_font"@ {
        ConfigV { text_font: value, ..c }
    } else if key == "text_size"@ {
        match parse_u32_text(value) {
            Some(n) => if n >= 1 {
                ConfigV { text_size: n, ..c }
            } else {
                c
            },
            None => c,
        }
    } else if key == "show_panel"@ {
        match parse_bool_text(value) {
            Some(b) => ConfigV { show_panel: b, ..c },
            None => c,
        }
    } else if key == "paint_mode"@ {
        match paint_mode_of_text(value) {
            Ok(m) => ConfigV { paint_mode: m, ..c },
            Err(_) => c,
        }
    } else if key == "early_exit"@ {
        match parse_bool_text(value) {
            Some(b) => ConfigV { early_exit: b, ..c },
            None => c,
        }
    } else if key == "fill_shape"@ {
        match parse_bool_text(value) {
            Some(b) => ConfigV { fill_shape: b, ..c },
            None => c,
        }
    } else {
        c
    }
}

/// What a whole section body does to the record: its lines apply first
/// to last.
pub open spec fn apply_props_v(c: ConfigV, props: Seq<PropV>) -> ConfigV
    decreases props.len(),
{
    if props.len() == 0 {
        c
    } else {
        apply_props_v(apply_prop_v(c, props[0].key, props[0].value), props.drop_first())
    }
}

/// What one section does to the record: only the section named
/// `Default`, case-sensitively, applies its body.
pub open spec fn apply_section_v(c: ConfigV, s: SectionV) -> ConfigV {
    if s.name == Some("Default"@) {
        apply_props_v(c, s.props)
    } else {
        c
    }
}

/// What a whole document does to the record: its sections apply first
/// to last.
pub open spec fn apply_sections_v(c: ConfigV, ss: Seq<SectionV>) -> ConfigV
    decreases ss.len(),
{
    if ss.len() == 0 {
        c
    } else {
        apply_sections_v(apply_section_v(c, ss[0]), ss.drop_first())
    }
}

impl Config {
    /// Overwrites the field addressed by one recognized `key = value`
    /// line; an unrecognized key, or a value that fails its grammar,
    /// leaves the record unchanged.
    pub fn apply_prop(&mut self, key: &str, value: &str)
        ensures
            final(self)@ == apply_prop_v(old(self)@, key@, value@),
    {
        if str_eq(key, "save_dir") {
            self.save_dir = value.to_owned();
        } else if str_eq(key, "save_filename_format") {
            self.save_filename_format = value.to_owned();
        } else if str_eq(key, "line_size") {
            match parse_u32(value) {
                Some(n) => if n >= 1 {
                    self.line_size = n;
                },
                None => {},
            }
        } else if str_eq(key, "text_font") {
            self.text_font = value.to_owned();
        } else if str_eq(key, "text_size") {
            match parse_u32(value) {
                Some(n) => if n >= 1 {
                    self.text_size = n;
                },
                None => {},
            }
        } else if str_eq(key, "show_panel") {
            match parse_bool(value) {
                Some(b) => self.show_panel = b,
                None => {},
            }
        } else if str_eq(key, "paint_mode") {
            match PaintMode::parse(value) {
                Ok(m) => self.paint_mode = m,
                Err(_) => {},
            }
        } else if str_eq(key, "early_exit") {
            match parse_bool(value) {
                Some(b) => self.early_exit = b,
                None => {},
            }
        } else if str_eq(key, "fill_shape") {
            match parse_bool(value) {
                Some(b) => self.fill_shape = b,
                None => {},
            }
        }
    }

    /// Applies every `key = value` line of one section body, first to
    /// last.
    pub fn apply_props(&mut self, props: &Vec<IniProp>)
        ensures
            final(self)@ == apply_props_v(old(self)@, props@.map_values(|p: IniProp| p@)),
    {
        let ghost all: Seq<PropV> = props@.map_values(|p: IniProp| p@);
        let n = props.len();
        let mut i: usize = 0;
        proof {
            assert(all.skip(0) =~= all);
        }
        while i < n
            invariant
                n == props@.len(),
                all == props@.map_values(|p: IniProp| p@),
                0 <= i <= n,
                apply_props_v(old(self)@, all) == apply_props_v(self@, all.skip(i as int)),
            decreases n - i,
        {
            proof {
                assert(all.skip(i as int)[0] == props@[i as int]@);
                assert(all.skip(i as int).drop_first() =~= all.skip(i + 1));
            }
            let p = &props[i];
            self.apply_prop(p.key.as_str(), p.value.as_str());
            i = i + 1;
        }
    }

    /// Applies one section: only a section named `Default`,
    /// case-sensitively, changes the record.
    pub fn apply_section(&mut self, sec: &IniSection)
        ensures
            final(self)@ == apply_section_v(old(self)@, sec@),
    {
        match &sec.name {
            Some(n) => {
                if str_eq(n.as_str(), "Default") {
                    self.apply_props(&sec.props);
                }
            },
            None => {},
        }
    }

    /// Applies a parsed configuration document, section by section.
    pub fn apply_document(&mut self, sections: &Vec<IniSection>)
        ensures
            final(self)@ == apply_sections_v(old(self)@, sections_of(sections@)),
    {
        let ghost all: Seq<SectionV> = sections_of(sections@);
        let n = sections.len();
        let mut i: usize = 0;
        proof {
            assert(all.skip(0) =~= all);
        }
        while i < n
            invariant
                n == sections@.len(),
                all == sections_of(sections@),
                0 <= i <= n,
                apply_sections_v(old(self)@, all) == apply_sections_v(self@, all.skip(i as int)),
            decreases n - i,
        {
            proof {
                assert(all.skip(i as int)[0] == sections@[i as int]@);
                assert(all.skip(i as int).drop_first() =~= all.skip(i + 1));
            }
            self.apply_section(&sections[i]);
            i = i + 1;
        }
    }
}

// ---------------------------------------------------------------------
// Loading
// ---------------------------------------------------------------------
/// Relies on ini::Ini::load_from_file: reads and parses the INI
/// document at `path`, giving `None` when the file is absent or
/// malformed. What comes back depends on what is on disk, so nothing is
/// promised of it; the sections and their `key = value` lines are
/// handed out in document order as plain strings.
#[verifier::external_body]
fn load_ini_sections(path: &str) -> Option<Vec<IniSection>> {
    let doc = ini::Ini::load_from_file(path).ok()?;
    Some(doc.iter().map(|(name, props)| IniSection {
        name: name.map(|n| n.to_owned()),
        props: props.iter().map(|(k, v)| IniProp { key: k.to_owned(), value: v.to_owned() }).collect(),
    }).collect())
}

impl Config {
    /// Loads the configuration: the defaults record, overlaid with the
    /// `Default` section of `<user-config-dir>/swappy/config` when that
    /// file exists and parses; the defaults unchanged otherwise. The
    /// result is always some document overlaid onto some defaults
    /// record, and its sizes are strictly positive. The argument is
    /// accepted and ignored, as the consumer's call site expects.
    pub fn new(_config_file: &str) -> (c: Config)
        ensures
            c@.wf(),
            exists|sd: Seq<char>, ss: Seq<SectionV>|
                c@ == apply_sections_v(default_config_v(sd), ss),
    {
        let mut config = Config::default();
        let ghost sd: Seq<char> = config@.save_dir;
        let dir = match crate::probe::config_dir_string() {
            Some(d) => d,
            None => {
                proof {
                    assert(config@ == apply_sections_v(
                        default_config_v(sd),
                        Seq::<SectionV>::empty(),
                    ));
                }
                return config;
            },
        };
        let path = dir.concat("/swappy/config");
        match load_ini_sections(path.as_str()) {
            None => {
                proof {
                    assert(config@ == apply_sections_v(
                        default_config_v(sd),
                        Seq::<SectionV>::empty(),
                    ));
                }
                config
            },
            Some(sections) => {
                config.apply_document(&sections);
                proof {
                    lemma_overlay_preserves_wf(default_config_v(sd), sections_of(sections@));
                    assert(config@ == apply_sections_v(
                        default_config_v(sd),
                        sections_of(sections@),
                    ));
                }
                config
            },
        }
    }
}

// ---------------------------------------------------------------------
// Laws
// ---------------------------------------------------------------------
/// One `key = value` line keeps the record well-formed: the two sizes
/// are only ever overwritten with strictly positive parsed values.
pub proof fn lemma_prop_preserves_wf(c: ConfigV, key: Seq<char>, value: Seq<char>)
    requires
        c.wf(),
    ensures
        apply_prop_v(c, key, value).wf(),
{
}

/// A section body keeps the record well-formed.
pub proof fn lemma_props_preserve_wf(c: ConfigV, props: Seq<PropV>)
    requires
        c.wf(),
    ensures
        apply_props_v(c, props).wf(),
    decreases props.len(),
{
    if props.len() > 0 {
        lemma_prop_preserves_wf(c, props[0].key, props[0].value);
        lemma_props_preserve_wf(apply_prop_v(c, props[0].key, props[0].value), props.drop_first());
    }
}

/// Law: for every successful load, every field of the record holds a
/// value of its semantic type — overlaying any document onto a
/// well-formed record keeps it well-formed.
pub proof fn lemma_overlay_preserves_wf(c: ConfigV, ss: Seq<SectionV>)
    requires
        c.wf(),
    ensures
        apply_sections_v(c, ss).wf(),
    decreases ss.len(),
{
    if ss.len() > 0 {
        if ss[0].name == Some("Default"@) {
            lemma_props_preserve_wf(c, ss[0].props);
        }
        lemma_overlay_preserves_wf(apply_section_v(c, ss[0]), ss.drop_first());
    }
}

/// Law: loading is deterministic — the same defaults record and the
/// same document always give the same record, so two back-to-back runs
/// over an unchanged environment agree.
pub proof fn lemma_load_deterministic(
    c1: ConfigV,
    c2: ConfigV,
    ss1: Seq<SectionV>,
    ss2: Seq<SectionV>,
)
    requires
        c1 == c2,
        ss1 == ss2,
    ensures
        apply_sections_v(c1, ss1) == apply_sections_v(c2, ss2),
{
}

/// Law: keys outside the recognized set never change any field.
pub proof fn lemma_unrecognized_keys_ignored(c: ConfigV, props: Seq<PropV>)
    requires
        forall|i: int| 0 <= i < props.len() ==> !recognized_key(#[trigger] props[i].key),
    ensures
        apply_props_v(c, props) == c,
    decreases props.len(),
{
    if props.len() > 0 {
        assert(!recognized_key(props[0].key));
        assert(apply_prop_v(c, props[0].key, props[0].value) == c);
        assert(forall|i: int|
            0 <= i < props.drop_first().len() ==> !recognized_key(
                #[trigger] props.drop_first()[i].key,
            ));
        lemma_unrecognized_keys_ignored(c, props.drop_first());
    }
}

/// Law: sections other than `Default` never change any field.
pub proof fn lemma_other_sections_ignored(c: ConfigV, ss: Seq<SectionV>)
    requires
        forall|i: int| 0 <= i < ss.len() ==> (#[trigger] ss[i].name) != Some("Default"@),
    ensures
        apply_sections_v(c, ss) == c,
    decreases ss.len(),
{
    if ss.len() > 0 {
        assert(ss[0].name != Some("Default"@));
        assert(forall|i: int|
            0 <= i < ss.drop_first().len() ==> (#[trigger] ss.drop_first()[i].name) != Some(
                "Default"@,
            ));
        lemma_other_sections_ignored(c, ss.drop_first());
    }
}

/// Law: an empty `Default` section yields exactly the record it is
/// applied to — on the defaults record, exactly the defaults.
pub proof fn lemma_empty_default_section(c: ConfigV)
    ensures
        apply_section_v(c, (SectionV { name: Some("Default"@), props: Seq::empty() })) == c,
{
}

/// Law: an empty document — the config file absent, or parsing to no
/// sections at all — leaves the defaults record unchanged.
pub proof fn lemma_empty_document(c: ConfigV)
    ensures
        apply_sections_v(c, Seq::<SectionV>::empty()) == c,
{
}

} // verus!

//! Benchmark settings given as optional text (environment values read by the
//! application) and resolved to counts.
use vstd::prelude::*;

verus! {

/// Pills spawned by the Fyrox scene when no count is given.
pub const DEFAULT_PILL_COUNT: usize = 60000;

/// Pills spawned per update by the Fyrox scene when no batch size is given.
pub const DEFAULT_SPAWN_BATCH: usize = 2000;

/// Materials created by the Fyrox scene when no material count is given.
pub const DEFAULT_MATERIAL_COUNT: usize = 10;

/// `c` is one of the ASCII digits `0` to `9`.
pub open spec fn is_decimal_digit(c: char) -> bool {
    '0' <= c && c <= '9'
}

/// The value of a sequence of ASCII digits read as a decimal number.
pub open spec fn decimal_value(digits: Seq<char>) -> nat
    decreases digits.len(),
{
    if digits.len() == 0 {
        0
    } else {
        decimal_value(digits.drop_last()) * 10 + ((digits.last() as nat) - ('0' as nat)) as nat
    }
}

/// The digits of `text` once an optional leading `+` is removed.
pub open spec fn unsigned_digits(text: Seq<char>) -> Seq<char> {
    if text.len() > 0 && text[0] == '+' {
        text.drop_first()
    } else {
        text
    }
}

/// What parsing `text` as a `usize` gives: an optional `+` followed by at least
/// one ASCII digit and nothing else, whose value fits in a `usize`.
pub open spec fn parsed_usize(text: Seq<char>) -> Option<usize> {
    let digits = unsigned_digits(text);
    if digits.len() > 0 && (forall|i: int| 0 <= i < digits.len() ==> is_decimal_digit(#[trigger] digits[i]))
        && decimal_value(digits) <= usize::MAX {
        Some(decimal_value(digits) as usize)
    } else {
        None
    }
}

/// Parses `text` with `str::parse::<usize>`. Its documentation says that the text must be
/// an optional `+` sign followed by decimal digits only, and that any other character,
/// an empty text or a value that does not fit is an error; the contract states exactly that.
#[verifier::external_body]
fn parse_usize(text: &str) -> (parsed: Option<usize>)
    ensures
        parsed == parsed_usize(text@),
{
    text.parse::<usize>().ok()
}

/// The text of an optional setting.
pub open spec fn setting_text(raw: Option<String>) -> Option<Seq<char>> {
    match raw {
        Some(s) => Some(s@),
        None => None,
    }
}

/// The count that a setting gives: its parsed value, or `default` when it is
/// absent or does not parse.
pub open spec fn setting_value(raw: Option<Seq<char>>, default: usize) -> usize {
    match raw {
        Some(text) => match parsed_usize(text) {
            Some(n) => n,
            None => default,
        },
        None => default,
    }
}

/// A setting whose text parses is that number, whatever the default and however
/// large the number; a setting that is absent or does not parse is the default.
pub proof fn lemma_setting_value(raw: Option<Seq<char>>, default: usize)
    ensures
        raw matches Some(text) ==> (parsed_usize(text) matches Some(n) ==> setting_value(
            raw,
            default,
        ) == n),
        raw matches Some(text) && parsed_usize(text) is None ==> setting_value(raw, default)
            == default,
        raw is None ==> setting_value(raw, default) == default,
        forall|other: usize|
            raw matches Some(text) && parsed_usize(text) is Some ==> #[trigger] setting_value(
                raw,
                other,
            ) == setting_value(raw, default),
{
}

/// Resolves an optional setting to a count, falling back to `default`.
pub fn setting_or(raw: &Option<String>, default: usize) -> (value: usize)
    ensures
        value == setting_value(setting_text(*raw), default),
        raw matches Some(text) ==> (parsed_usize(text@) matches Some(n) ==> value == n),
        raw matches Some(text) && parsed_usize(text@) is None ==> value == default,
        raw is None ==> value == default,
{
    match raw {
        Some(text) => match parse_usize(text.as_str()) {
            Some(n) => n,
            None => default,
        },
        None => default,
    }
}

/// The resolved settings of the Fyrox benchmark scene.
pub struct Settings {
    pill_count: usize,
    spawn_batch: usize,
    material_count: usize,
}

impl Settings {
    /// There is always at least one material to hand out.
    #[verifier::type_invariant]
    closed spec fn well_formed(self) -> bool {
        self.material_count >= 1
    }

    pub closed spec fn spec_pill_count(self) -> usize {
        self.pill_count
    }

    pub closed spec fn spec_spawn_batch(self) -> usize {
        self.spawn_batch
    }

    pub closed spec fn spec_material_count(self) -> usize {
        self.material_count
    }

    /// Resolves the pill count, the spawn batch size and the material count from
    /// their optional texts. The material count is raised to at least one.
    pub fn from_raw(
        pill_count: &Option<String>,
        spawn_batch: &Option<String>,
        material_count: &Option<String>,
    ) -> (settings: Settings)
        ensures
            settings.spec_pill_count() == setting_value(setting_text(*pill_count), DEFAULT_PILL_COUNT),
            settings.spec_spawn_batch() == setting_value(
                setting_text(*spawn_batch),
                DEFAULT_SPAWN_BATCH,
            ),
            settings.spec_material_count() == if setting_value(
                setting_text(*material_count),
                DEFAULT_MATERIAL_COUNT,
            ) >= 1 {
                setting_value(setting_text(*material_count), DEFAULT_MATERIAL_COUNT)
            } else {
                1
            },
            settings.spec_material_count() >= 1,
    {
        let materials = setting_or(material_count, DEFAULT_MATERIAL_COUNT);
        let materials = if materials >= 1 {
            materials
        } else {
            1
        };
        Settings {
            pill_count: setting_or(pill_count, DEFAULT_PILL_COUNT),
            spawn_batch: setting_or(spawn_batch, DEFAULT_SPAWN_BATCH),
            material_count: materials,
        }
    }

    /// Number of pills to spawn.
    pub fn pill_count(&self) -> (n: usize)
        ensures
            n == self.spec_pill_count(),
    {
        self.pill_count
    }

    /// Number of pills spawned per update.
    pub fn spawn_batch(&self) -> (n: usize)
        ensures
            n == self.spec_spawn_batch(),
    {
        self.spawn_batch
    }

    /// Number of materials to create; never zero.
    pub fn material_count(&self) -> (n: usize)
        ensures
            n == self.spec_material_count(),
            n >= 1,
    {
        proof {
            use_type_invariant(self);
        }
        self.material_count
    }
}

} // verus!

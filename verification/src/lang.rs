//! MANGA Plus language codes supported by this client, and their mapping to
//! the `Title.language` enum seen on the wire.

use vstd::prelude::*;
use crate::text::{ascii_ci_eq, eq_ignore_ascii_case, lower_codes};

verus! {

pub const ENGLISH: &'static str = "eng";
pub const SPANISH: &'static str = "esp";
pub const FRENCH: &'static str = "fra";
pub const INDONESIAN: &'static str = "ind";
pub const PORTUGUESE_BR: &'static str = "ptb";
pub const RUSSIAN: &'static str = "rus";
pub const THAI: &'static str = "tha";
pub const VIETNAMESE: &'static str = "vie";
pub const GERMAN: &'static str = "deu";

/// The supported codes, in the order in which `normalize` tries them.
pub open spec fn supported_codes() -> Seq<Seq<char>> {
    seq![
        ENGLISH@,
        SPANISH@,
        FRENCH@,
        INDONESIAN@,
        PORTUGUESE_BR@,
        RUSSIAN@,
        THAI@,
        VIETNAMESE@,
        GERMAN@,
    ]
}

/// Whether `code` is one of the supported codes, spelled exactly.
pub open spec fn is_supported(code: Seq<char>) -> bool {
    supported_codes().contains(code)
}

/// The supported code that `code` names, ignoring ASCII case; English when
/// `code` names none of them.
pub open spec fn spec_normalize(code: Seq<char>) -> Seq<char> {
    if ascii_ci_eq(code, ENGLISH@) {
        ENGLISH@
    } else if ascii_ci_eq(code, SPANISH@) {
        SPANISH@
    } else if ascii_ci_eq(code, FRENCH@) {
        FRENCH@
    } else if ascii_ci_eq(code, INDONESIAN@) {
        INDONESIAN@
    } else if ascii_ci_eq(code, PORTUGUESE_BR@) {
        PORTUGUESE_BR@
    } else if ascii_ci_eq(code, RUSSIAN@) {
        RUSSIAN@
    } else if ascii_ci_eq(code, THAI@) {
        THAI@
    } else if ascii_ci_eq(code, VIETNAMESE@) {
        VIETNAMESE@
    } else if ascii_ci_eq(code, GERMAN@) {
        GERMAN@
    } else {
        ENGLISH@
    }
}

/// The `Title.language` enum value of a supported code; 0 (English) for
/// anything else.
pub open spec fn code_wire_value(code: Seq<char>) -> i32 {
    if code == SPANISH@ {
        1
    } else if code == FRENCH@ {
        2
    } else if code == INDONESIAN@ {
        3
    } else if code == PORTUGUESE_BR@ {
        4
    } else if code == RUSSIAN@ {
        5
    } else if code == THAI@ {
        6
    } else if code == GERMAN@ {
        7
    } else if code == VIETNAMESE@ {
        9
    } else {
        0
    }
}

/// The supported code of a `Title.language` enum value, if there is one.
pub open spec fn spec_from_wire_enum(value: i32) -> Option<Seq<char>> {
    if value == 0 {
        Some(ENGLISH@)
    } else if value == 1 {
        Some(SPANISH@)
    } else if value == 2 {
        Some(FRENCH@)
    } else if value == 3 {
        Some(INDONESIAN@)
    } else if value == 4 {
        Some(PORTUGUESE_BR@)
    } else if value == 5 {
        Some(RUSSIAN@)
    } else if value == 6 {
        Some(THAI@)
    } else if value == 7 {
        Some(GERMAN@)
    } else if value == 9 {
        Some(VIETNAMESE@)
    } else {
        None
    }
}

/// The supported codes spelled out, character by character.
pub proof fn lemma_code_spellings()
    ensures
        ENGLISH@ == seq!['e', 'n', 'g'],
        SPANISH@ == seq!['e', 's', 'p'],
        FRENCH@ == seq!['f', 'r', 'a'],
        INDONESIAN@ == seq!['i', 'n', 'd'],
        PORTUGUESE_BR@ == seq!['p', 't', 'b'],
        RUSSIAN@ == seq!['r', 'u', 's'],
        THAI@ == seq!['t', 'h', 'a'],
        VIETNAMESE@ == seq!['v', 'i', 'e'],
        GERMAN@ == seq!['d', 'e', 'u'],
{
    reveal_strlit("eng");
    reveal_strlit("esp");
    reveal_strlit("fra");
    reveal_strlit("ind");
    reveal_strlit("ptb");
    reveal_strlit("rus");
    reveal_strlit("tha");
    reveal_strlit("vie");
    reveal_strlit("deu");
    assert(ENGLISH@ =~= seq!['e', 'n', 'g']);
    assert(SPANISH@ =~= seq!['e', 's', 'p']);
    assert(FRENCH@ =~= seq!['f', 'r', 'a']);
    assert(INDONESIAN@ =~= seq!['i', 'n', 'd']);
    assert(PORTUGUESE_BR@ =~= seq!['p', 't', 'b']);
    assert(RUSSIAN@ =~= seq!['r', 'u', 's']);
    assert(THAI@ =~= seq!['t', 'h', 'a']);
    assert(VIETNAMESE@ =~= seq!['v', 'i', 'e']);
    assert(GERMAN@ =~= seq!['d', 'e', 'u']);
}

/// The entries of `supported_codes()`, one by one.
proof fn lemma_supported_entries()
    ensures
        supported_codes().len() == 9,
        supported_codes()[0] == ENGLISH@,
        supported_codes()[1] == SPANISH@,
        supported_codes()[2] == FRENCH@,
        supported_codes()[3] == INDONESIAN@,
        supported_codes()[4] == PORTUGUESE_BR@,
        supported_codes()[5] == RUSSIAN@,
        supported_codes()[6] == THAI@,
        supported_codes()[7] == VIETNAMESE@,
        supported_codes()[8] == GERMAN@,
{
}

/// The supported codes are pairwise distinct.
pub proof fn lemma_codes_distinct()
    ensures
        forall|i: int, j: int|
            0 <= i < 9 && 0 <= j < 9 && i != j ==> #[trigger] supported_codes()[i]
                != #[trigger] supported_codes()[j],
{
    lemma_code_spellings();
    assert forall|i: int, j: int|
        0 <= i < 9 && 0 <= j < 9 && i != j implies #[trigger] supported_codes()[i]
            != #[trigger] supported_codes()[j] by {
        let a = supported_codes()[i];
        let b = supported_codes()[j];
        assert(a[0] != b[0] || a[1] != b[1] || a[2] != b[2]);
    }
}

/// Index into `supported_codes()` of the code that `code` normalizes to.
fn normalize_index(code: &str) -> (r: usize)
    ensures
        r < 9,
        supported_codes()[r as int] == spec_normalize(code@),
{
    let supported: [&'static str; 9] = [
        ENGLISH,
        SPANISH,
        FRENCH,
        INDONESIAN,
        PORTUGUESE_BR,
        RUSSIAN,
        THAI,
        VIETNAMESE,
        GERMAN,
    ];
    let mut i: usize = 0;
    while i < 9
        invariant
            i <= 9,
            forall|j: int| 0 <= j < 9 ==> (#[trigger] supported@[j])@ == supported_codes()[j],
            forall|j: int| 0 <= j < i ==> !ascii_ci_eq(code@, #[trigger] supported_codes()[j]),
        decreases 9 - i,
    {
        if eq_ignore_ascii_case(code, supported[i]) {
            return i;
        }
        i = i + 1;
    }
    0
}

/// Keep outbound requests inside the supported language set.
/// English is the default for missing, malformed, or unsupported codes.
pub fn normalize(code: &str) -> (r: &'static str)
    ensures
        r@ == spec_normalize(code@),
{
    let supported: [&'static str; 9] = [
        ENGLISH,
        SPANISH,
        FRENCH,
        INDONESIAN,
        PORTUGUESE_BR,
        RUSSIAN,
        THAI,
        VIETNAMESE,
        GERMAN,
    ];
    let i = normalize_index(code);
    supported[i]
}

/// Convert a supported content-language code to the `Title.language`
/// enum observed in catalog responses. Unsupported codes follow
/// [`normalize`] and fall back to English.
pub fn wire_enum(code: &str) -> (r: i32)
    ensures
        r == code_wire_value(spec_normalize(code@)),
{
    let values: [i32; 9] = [0, 1, 2, 3, 4, 5, 6, 9, 7];
    let i = normalize_index(code);
    proof {
        lemma_codes_distinct();
    }
    values[i]
}

/// Convert a `Title.language` wire enum back to its supported code.
/// Enum 8 is Italian in the official app's schema; MANGA Plus runs no
/// Italian catalog, so it stays unsupported.
pub fn from_wire_enum(value: i32) -> (r: Option<&'static str>)
    ensures
        match r {
            Some(s) => spec_from_wire_enum(value) == Some(s@),
            None => spec_from_wire_enum(value) is None,
        },
{
    match value {
        0 => Some(ENGLISH),
        1 => Some(SPANISH),
        2 => Some(FRENCH),
        3 => Some(INDONESIAN),
        4 => Some(PORTUGUESE_BR),
        5 => Some(RUSSIAN),
        6 => Some(THAI),
        7 => Some(GERMAN),
        9 => Some(VIETNAMESE),
        _ => None,
    }
}

/// No two supported codes match each other ignoring ASCII case.
proof fn lemma_codes_ci_distinct()
    ensures
        forall|i: int, j: int|
            0 <= i < 9 && 0 <= j < 9 && i != j ==> !ascii_ci_eq(
                #[trigger] supported_codes()[i],
                #[trigger] supported_codes()[j],
            ),
{
    lemma_code_spellings();
    assert forall|i: int, j: int| 0 <= i < 9 && 0 <= j < 9 && i != j implies !ascii_ci_eq(
        #[trigger] supported_codes()[i],
        #[trigger] supported_codes()[j],
    ) by {
        let a = supported_codes()[i];
        let b = supported_codes()[j];
        let k: int = if a[0] != b[0] {
            0
        } else if a[1] != b[1] {
            1
        } else {
            2
        };
        assert(lower_codes(a)[k] != lower_codes(b)[k]);
    }
}

/// Normalizing always lands in the supported set.
pub proof fn law_normalize_is_supported(code: Seq<char>)
    ensures
        is_supported(spec_normalize(code)),
{
    lemma_supported_entries();
}

/// A code that matches a supported code ignoring ASCII case (the code
/// itself, its upper-case spelling, any mix) normalizes to that code.
pub proof fn law_normalize_matches_ignoring_case(code: Seq<char>, supported: Seq<char>)
    requires
        is_supported(supported),
        ascii_ci_eq(code, supported),
    ensures
        spec_normalize(code) == supported,
{
    lemma_codes_ci_distinct();
    let k = choose|k: int| 0 <= k < 9 && supported_codes()[k] == supported;
    assert forall|j: int| 0 <= j < 9 && j != k implies !ascii_ci_eq(
        code,
        #[trigger] supported_codes()[j],
    ) by {
        assert(!ascii_ci_eq(supported_codes()[k], supported_codes()[j]));
    }
    assert(!ascii_ci_eq(code, supported_codes()[0]) || k == 0);
    assert(!ascii_ci_eq(code, supported_codes()[1]) || k == 1);
    assert(!ascii_ci_eq(code, supported_codes()[2]) || k == 2);
    assert(!ascii_ci_eq(code, supported_codes()[3]) || k == 3);
    assert(!ascii_ci_eq(code, supported_codes()[4]) || k == 4);
    assert(!ascii_ci_eq(code, supported_codes()[5]) || k == 5);
    assert(!ascii_ci_eq(code, supported_codes()[6]) || k == 6);
    assert(!ascii_ci_eq(code, supported_codes()[7]) || k == 7);
    assert(!ascii_ci_eq(code, supported_codes()[8]) || k == 8);
}

/// A code that matches no supported code, ignoring ASCII case (an empty,
/// malformed or unsupported code), normalizes to English.
pub proof fn law_normalize_defaults_to_english(code: Seq<char>)
    requires
        forall|i: int| 0 <= i < 9 ==> !ascii_ci_eq(code, #[trigger] supported_codes()[i]),
    ensures
        spec_normalize(code) == ENGLISH@,
{
    assert(!ascii_ci_eq(code, supported_codes()[0]));
    assert(!ascii_ci_eq(code, supported_codes()[1]));
    assert(!ascii_ci_eq(code, supported_codes()[2]));
    assert(!ascii_ci_eq(code, supported_codes()[3]));
    assert(!ascii_ci_eq(code, supported_codes()[4]));
    assert(!ascii_ci_eq(code, supported_codes()[5]));
    assert(!ascii_ci_eq(code, supported_codes()[6]));
    assert(!ascii_ci_eq(code, supported_codes()[7]));
    assert(!ascii_ci_eq(code, supported_codes()[8]));
}

/// Normalizing twice gives what normalizing once gives.
pub proof fn law_normalize_idempotent(code: Seq<char>)
    ensures
        spec_normalize(spec_normalize(code)) == spec_normalize(code),
{
    law_normalize_is_supported(code);
    law_normalize_matches_ignoring_case(spec_normalize(code), spec_normalize(code));
}

/// Mapping a code to the wire enum and back gives the normalized code.
pub proof fn law_wire_round_trip(code: Seq<char>)
    ensures
        spec_from_wire_enum(code_wire_value(spec_normalize(code))) == Some(spec_normalize(code)),
{
    lemma_codes_distinct();
    lemma_supported_entries();
}

/// Every wire value that names a code is the wire value of that code, and
/// the code is supported; all other values (8 among them) name none.
pub proof fn law_wire_values_named(value: i32)
    ensures
        spec_from_wire_enum(value) matches Some(c) ==> is_supported(c) && code_wire_value(c) == value,
        spec_from_wire_enum(value) is Some <==> (0 <= value <= 7 || value == 9),
{
    lemma_codes_distinct();
    lemma_supported_entries();
}

/// Distinct supported codes have distinct wire values.
pub proof fn law_wire_value_injective(a: Seq<char>, b: Seq<char>)
    requires
        is_supported(a),
        is_supported(b),
        code_wire_value(a) == code_wire_value(b),
    ensures
        a == b,
{
    lemma_codes_distinct();
    lemma_supported_entries();
}

/// Two supported codes that match ignoring ASCII case are the same code.
pub proof fn law_supported_ci_distinct(a: Seq<char>, b: Seq<char>)
    requires
        is_supported(a),
        is_supported(b),
        ascii_ci_eq(a, b),
    ensures
        a == b,
{
    lemma_codes_ci_distinct();
    let i = choose|i: int| 0 <= i < 9 && supported_codes()[i] == a;
    let j = choose|j: int| 0 <= j < 9 && supported_codes()[j] == b;
    assert(!ascii_ci_eq(supported_codes()[i], supported_codes()[j]) || i == j);
}

/// The server's fixed `Title.language` values: eng 0, esp 1, fra 2, ind 3,
/// ptb 4, rus 5, tha 6, deu 7, vie 9; each supported code normalizes to
/// itself and so maps to its value, and each value maps back to its code.
pub proof fn law_wire_values_fixed()
    ensures
        code_wire_value(spec_normalize(seq!['e', 'n', 'g'])) == 0,
        code_wire_value(spec_normalize(seq!['e', 's', 'p'])) == 1,
        code_wire_value(spec_normalize(seq!['f', 'r', 'a'])) == 2,
        code_wire_value(spec_normalize(seq!['i', 'n', 'd'])) == 3,
        code_wire_value(spec_normalize(seq!['p', 't', 'b'])) == 4,
        code_wire_value(spec_normalize(seq!['r', 'u', 's'])) == 5,
        code_wire_value(spec_normalize(seq!['t', 'h', 'a'])) == 6,
        code_wire_value(spec_normalize(seq!['d', 'e', 'u'])) == 7,
        code_wire_value(spec_normalize(seq!['v', 'i', 'e'])) == 9,
        spec_from_wire_enum(0) == Some(seq!['e', 'n', 'g']),
        spec_from_wire_enum(1) == Some(seq!['e', 's', 'p']),
        spec_from_wire_enum(2) == Some(seq!['f', 'r', 'a']),
        spec_from_wire_enum(3) == Some(seq!['i', 'n', 'd']),
        spec_from_wire_enum(4) == Some(seq!['p', 't', 'b']),
        spec_from_wire_enum(5) == Some(seq!['r', 'u', 's']),
        spec_from_wire_enum(6) == Some(seq!['t', 'h', 'a']),
        spec_from_wire_enum(7) == Some(seq!['d', 'e', 'u']),
        spec_from_wire_enum(8) is None,
        spec_from_wire_enum(9) == Some(seq!['v', 'i', 'e']),
{
    lemma_code_spellings();
    lemma_supported_entries();
    lemma_codes_distinct();
    law_normalize_matches_ignoring_case(ENGLISH@, ENGLISH@);
    law_normalize_matches_ignoring_case(SPANISH@, SPANISH@);
    law_normalize_matches_ignoring_case(FRENCH@, FRENCH@);
    law_normalize_matches_ignoring_case(INDONESIAN@, INDONESIAN@);
    law_normalize_matches_ignoring_case(PORTUGUESE_BR@, PORTUGUESE_BR@);
    law_normalize_matches_ignoring_case(RUSSIAN@, RUSSIAN@);
    law_normalize_matches_ignoring_case(THAI@, THAI@);
    law_normalize_matches_ignoring_case(GERMAN@, GERMAN@);
    law_normalize_matches_ignoring_case(VIETNAMESE@, VIETNAMESE@);
}

} // verus!

//! Equalizer preset files: band frequencies, preset file names and the
//! filter for preset files.

use vstd::prelude::*;
use crate::text::{chars_of, push_char, push_str};

verus! {

/// Fixed center frequencies of the 10-band equalizer, in Hz.
pub const EQ_BANDS_HZ: [u32; 10] = [31, 62, 125, 250, 500, 1000, 2000, 4000, 8000, 16000];

/// Whether `c` is an ASCII letter or digit.
pub open spec fn is_ascii_alphanumeric(c: char) -> bool {
    ('a' <= c <= 'z') || ('A' <= c <= 'Z') || ('0' <= c <= '9')
}

/// ASCII lowercase of `c` (other characters unchanged).
pub open spec fn ascii_lower(c: char) -> char {
    if 'A' <= c <= 'Z' {
        (c as int + 32) as char
    } else {
        c
    }
}

/// What one character of a preset name becomes in its file name.
pub open spec fn file_name_part(c: char) -> Seq<char> {
    if is_ascii_alphanumeric(c) {
        seq![ascii_lower(c)]
    } else if c == ' ' || c == '-' || c == '_' {
        seq!['_']
    } else {
        Seq::empty()
    }
}

/// The kept characters of a name: ASCII letters and digits in lowercase,
/// spaces, dashes and underscores as underscores, all else dropped.
pub open spec fn file_name_chars(name: Seq<char>) -> Seq<char>
    decreases name.len(),
{
    if name.len() == 0 {
        Seq::empty()
    } else {
        file_name_chars(name.drop_last()) + file_name_part(name.last())
    }
}

/// The sanitized file stem of a preset name; `preset` when nothing is kept.
pub open spec fn sanitized(name: Seq<char>) -> Seq<char> {
    if file_name_chars(name).len() == 0 {
        "preset"@
    } else {
        file_name_chars(name)
    }
}

/// Whether a character is kept unchanged in file names: a lowercase ASCII
/// letter, a digit or an underscore.
pub open spec fn is_file_name_char(c: char) -> bool {
    ('a' <= c <= 'z') || ('0' <= c <= '9') || c == '_'
}

proof fn lemma_file_name_chars_safe(name: Seq<char>)
    ensures
        forall|i: int|
            0 <= i < file_name_chars(name).len() ==> is_file_name_char(#[trigger] file_name_chars(name)[i]),
    decreases name.len(),
{
    if name.len() > 0 {
        lemma_file_name_chars_safe(name.drop_last());
        let p = file_name_chars(name.drop_last());
        let q = file_name_part(name.last());
        assert forall|i: int| 0 <= i < (p + q).len() implies is_file_name_char(#[trigger] (p + q)[i]) by {
            if i >= p.len() {
                assert(q[i - p.len()] == (p + q)[i]);
            }
        }
    }
}

proof fn lemma_file_name_chars_fixed(name: Seq<char>)
    requires
        forall|i: int| 0 <= i < name.len() ==> is_file_name_char(#[trigger] name[i]),
    ensures
        file_name_chars(name) == name,
    decreases name.len(),
{
    if name.len() > 0 {
        lemma_file_name_chars_fixed(name.drop_last());
        assert(is_file_name_char(name[name.len() - 1]));
        assert(name.drop_last() + seq![name.last()] =~= name);
    }
}

/// Preset file stems are safe and stable: they hold only lowercase ASCII
/// letters, digits and underscores, are never empty, and sanitizing a
/// stem again gives it back unchanged.
pub proof fn sanitized_names_are_stable(name: Seq<char>)
    ensures
        sanitized(name).len() > 0,
        forall|i: int| 0 <= i < sanitized(name).len() ==> is_file_name_char(#[trigger] sanitized(name)[i]),
        sanitized(sanitized(name)) == sanitized(name),
{
    reveal_strlit("preset");
    lemma_file_name_chars_safe(name);
    let s = sanitized(name);
    assert forall|i: int| 0 <= i < s.len() implies is_file_name_char(#[trigger] s[i]) by {
        if file_name_chars(name).len() == 0 {
            assert(s == "preset"@);
        }
    }
    lemma_file_name_chars_fixed(s);
}

fn ascii_lower_exec(c: char) -> (l: char)
    ensures
        l == ascii_lower(c),
{
    if 'A' <= c && c <= 'Z' {
        ((c as u8) + 32u8) as char
    } else {
        c
    }
}

/// Turns a preset name into a safe file stem.
pub fn sanitize_filename(name: &str) -> (out: String)
    ensures
        out@ == sanitized(name@),
{
    let chars = chars_of(name);
    let mut out = String::new();
    let mut i: usize = 0;
    while i < chars.len()
        invariant
            i <= chars@.len(),
            chars@ == name@,
            out@ == file_name_chars(chars@.take(i as int)),
        decreases chars.len() - i,
    {
        let c = chars[i];
        proof {
            assert(chars@.take(i + 1).drop_last() =~= chars@.take(i as int));
        }
        if ('a' <= c && c <= 'z') || ('A' <= c && c <= 'Z') || ('0' <= c && c <= '9') {
            push_char(&mut out, ascii_lower_exec(c));
        } else if c == ' ' || c == '-' || c == '_' {
            push_char(&mut out, '_');
        }
        proof {
            assert(out@ =~= file_name_chars(chars@.take(i + 1)));
        }
        i = i + 1;
    }
    proof {
        assert(chars@.take(chars@.len() as int) =~= chars@);
    }
    if out.as_str().is_empty() {
        "preset".to_owned()
    } else {
        out
    }
}

/// The file name of a preset: its sanitized stem with `.json`.
pub fn preset_file_name(name: &str) -> (file: String)
    ensures
        file@ == sanitized(name@) + ".json"@,
{
    let mut file = sanitize_filename(name);
    push_str(&mut file, ".json");
    file
}

/// Whether an extension is `json`, ignoring ASCII case.
pub open spec fn is_json_extension(ext: Seq<char>) -> bool {
    ext.len() == 4 && forall|i: int| 0 <= i < 4 ==> #[trigger] ascii_lower(ext[i]) == "json"@[i]
}

/// Whether a file with the given extension (`None` when it has none or it
/// is not UTF-8) is a preset file: its extension is `json` in any ASCII
/// case.
pub fn is_json_file(extension: Option<&str>) -> (b: bool)
    ensures
        b == match extension {
            Some(ext) => is_json_extension(ext@),
            None => false,
        },
{
    match extension {
        Some(ext) => {
            let chars = chars_of(ext);
            let pat = chars_of("json");
            proof {
                reveal_strlit("json");
            }
            if chars.len() != 4 {
                return false;
            }
            let mut i: usize = 0;
            while i < 4
                invariant
                    i <= 4,
                    extension == Some(ext),
                    chars@ == ext@,
                    chars@.len() == 4,
                    pat@ == "json"@,
                    pat@.len() == 4,
                    forall|k: int| 0 <= k < i ==> #[trigger] ascii_lower(chars@[k]) == pat@[k],
                decreases 4 - i,
            {
                if ascii_lower_exec(chars[i]) != pat[i] {
                    proof {
                        assert(ascii_lower(ext@[i as int]) != "json"@[i as int]);
                    }
                    return false;
                }
                i = i + 1;
            }
            true
        },
        None => false,
    }
}

/// Names of presets that earlier versions shipped as files; their files
/// are removed when the built-in presets are seeded.
pub fn legacy_preset_names() -> (names: Vec<String>)
    ensures
        names@.map_values(|n: String| n@) == seq![
            "Flat"@,
            "Rock"@,
            "Pop"@,
            "Clasica"@,
            "Auditorio"@,
            "Radio"@,
            "Indie"@,
            "Jazz"@,
            "Vocal"@,
        ],
{
    let mut names: Vec<String> = Vec::new();
    names.push("Flat".to_owned());
    names.push("Rock".to_owned());
    names.push("Pop".to_owned());
    names.push("Clasica".to_owned());
    names.push("Auditorio".to_owned());
    names.push("Radio".to_owned());
    names.push("Indie".to_owned());
    names.push("Jazz".to_owned());
    names.push("Vocal".to_owned());
    proof {
        assert(names@.map_values(|n: String| n@) =~= seq![
            "Flat"@,
            "Rock"@,
            "Pop"@,
            "Clasica"@,
            "Auditorio"@,
            "Radio"@,
            "Indie"@,
            "Jazz"@,
            "Vocal"@,
        ]);
    }
    names
}

} // verus!

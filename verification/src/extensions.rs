//! Recognized audio-file extensions.
//!
//! The scanner admits exactly the files whose name carries one of the
//! extensions `mp3`, `wav`, `ogg`, `flac`, `m4a`, compared without regard
//! to letter case. The extension of a name is the part after its last dot,
//! except that a leading dot (a hidden file) starts no extension.

use vstd::prelude::*;

verus! {

/// ASCII lower-casing of a single character; everything outside `A`..`Z`
/// is left alone.
pub open spec fn lower_char_spec(c: char) -> char {
    if c == 'A' {
        'a'
    } else if c == 'B' {
        'b'
    } else if c == 'C' {
        'c'
    } else if c == 'D' {
        'd'
    } else if c == 'E' {
        'e'
    } else if c == 'F' {
        'f'
    } else if c == 'G' {
        'g'
    } else if c == 'H' {
        'h'
    } else if c == 'I' {
        'i'
    } else if c == 'J' {
        'j'
    } else if c == 'K' {
        'k'
    } else if c == 'L' {
        'l'
    } else if c == 'M' {
        'm'
    } else if c == 'N' {
        'n'
    } else if c == 'O' {
        'o'
    } else if c == 'P' {
        'p'
    } else if c == 'Q' {
        'q'
    } else if c == 'R' {
        'r'
    } else if c == 'S' {
        's'
    } else if c == 'T' {
        't'
    } else if c == 'U' {
        'u'
    } else if c == 'V' {
        'v'
    } else if c == 'W' {
        'w'
    } else if c == 'X' {
        'x'
    } else if c == 'Y' {
        'y'
    } else if c == 'Z' {
        'z'
    } else {
        c
    }
}

/// A sequence of characters, each lowered.
pub open spec fn lowered(s: Seq<char>) -> Seq<char> {
    s.map_values(|c: char| lower_char_spec(c))
}

/// The fixed set of recognized audio extensions, compared case-insensitively.
pub open spec fn is_audio_ext(e: Seq<char>) -> bool {
    let l = lowered(e);
    ||| l == seq!['m', 'p', '3']
    ||| l == seq!['w', 'a', 'v']
    ||| l == seq!['o', 'g', 'g']
    ||| l == seq!['f', 'l', 'a', 'c']
    ||| l == seq!['m', '4', 'a']
}

/// Scans `name` backwards from index `i` for the dot that starts the
/// extension. A dot at index 0 starts none: such a name is a hidden file.
pub open spec fn ext_scan(name: Seq<char>, i: int) -> Option<Seq<char>>
    decreases i,
{
    if i < 1 {
        None
    } else if name[i] == '.' {
        Some(name.subrange(i + 1, name.len() as int))
    } else {
        ext_scan(name, i - 1)
    }
}

/// The extension of a file name: the part after the last dot, if a dot
/// stands anywhere but at the front.
pub open spec fn ext_of(name: Seq<char>) -> Option<Seq<char>> {
    ext_scan(name, name.len() as int - 1)
}

/// ASCII lower-casing, executable form.
pub fn lower_char(c: char) -> (r: char)
    ensures
        r == lower_char_spec(c),
{
    if c == 'A' {
        'a'
    } else if c == 'B' {
        'b'
    } else if c == 'C' {
        'c'
    } else if c == 'D' {
        'd'
    } else if c == 'E' {
        'e'
    } else if c == 'F' {
        'f'
    } else if c == 'G' {
        'g'
    } else if c == 'H' {
        'h'
    } else if c == 'I' {
        'i'
    } else if c == 'J' {
        'j'
    } else if c == 'K' {
        'k'
    } else if c == 'L' {
        'l'
    } else if c == 'M' {
        'm'
    } else if c == 'N' {
        'n'
    } else if c == 'O' {
        'o'
    } else if c == 'P' {
        'p'
    } else if c == 'Q' {
        'q'
    } else if c == 'R' {
        'r'
    } else if c == 'S' {
        's'
    } else if c == 'T' {
        't'
    } else if c == 'U' {
        'u'
    } else if c == 'V' {
        'v'
    } else if c == 'W' {
        'w'
    } else if c == 'X' {
        'x'
    } else if c == 'Y' {
        'y'
    } else if c == 'Z' {
        'z'
    } else {
        c
    }
}

/// Decides whether `ext` is one of the recognized audio extensions,
/// without regard to letter case.
pub fn is_recognized_extension(ext: &str) -> (r: bool)
    ensures
        r == is_audio_ext(ext@),
{
    let n = ext.unicode_len();
    if n == 3 {
        let a = lower_char(ext.get_char(0));
        let b = lower_char(ext.get_char(1));
        let c = lower_char(ext.get_char(2));
        let hit = (a == 'm' && b == 'p' && c == '3') || (a == 'w' && b == 'a' && c == 'v') || (a
            == 'o' && b == 'g' && c == 'g') || (a == 'm' && b == '4' && c == 'a');
        proof {
            assert(lowered(ext@).len() == 3);
            assert(lowered(ext@)[0] == a && lowered(ext@)[1] == b && lowered(ext@)[2] == c);
            if hit {
                if a == 'm' && b == 'p' && c == '3' {
                    assert(lowered(ext@) =~= seq!['m', 'p', '3']);
                } else if a == 'w' && b == 'a' && c == 'v' {
                    assert(lowered(ext@) =~= seq!['w', 'a', 'v']);
                } else if a == 'o' && b == 'g' && c == 'g' {
                    assert(lowered(ext@) =~= seq!['o', 'g', 'g']);
                } else {
                    assert(lowered(ext@) =~= seq!['m', '4', 'a']);
                }
            }
        }
        hit
    } else if n == 4 {
        let a = lower_char(ext.get_char(0));
        let b = lower_char(ext.get_char(1));
        let c = lower_char(ext.get_char(2));
        let d = lower_char(ext.get_char(3));
        let hit = a == 'f' && b == 'l' && c == 'a' && d == 'c';
        proof {
            assert(lowered(ext@).len() == 4);
            assert(lowered(ext@)[0] == a && lowered(ext@)[1] == b && lowered(ext@)[2] == c
                && lowered(ext@)[3] == d);
            if hit {
                assert(lowered(ext@) =~= seq!['f', 'l', 'a', 'c']);
            }
        }
        hit
    } else {
        proof {
            assert(lowered(ext@).len() == n);
        }
        false
    }
}

/// Extracts the extension of a file name: the part after the last dot,
/// unless the only dot is the leading one.
pub fn extension_of(name: &str) -> (r: Option<String>)
    ensures
        match r {
            Some(e) => ext_of(name@) == Some(e@),
            None => ext_of(name@) is None,
        },
{
    let n = name.unicode_len();
    let mut i: usize = n;
    while i > 1
        invariant
            i <= n,
            n == name@.len(),
            ext_of(name@) == ext_scan(name@, i as int - 1),
        decreases i,
    {
        let j = i - 1;
        let c = name.get_char(j);
        if c == '.' {
            let e = name.substring_char(j + 1, n);
            return Some(e.to_owned());
        }
        i = j;
    }
    None
}

} // verus!

//! Boundary detection for splitting text safely.
//!
//! A piece of accumulated text may be forwarded downstream (to the
//! language model, or to voice synthesis) only when it ends on a
//! recognized boundary character: sentence or clause punctuation,
//! whitespace, or a bracket.  The empty string and the string that is
//! exactly one space never count as a boundary.

use vstd::prelude::*;

verus! {

/// Whether `c` is one of the recognized boundary characters.
pub open spec fn spec_is_splitter(c: char) -> bool {
    ||| c == '.'
    ||| c == ','
    ||| c == '?'
    ||| c == '!'
    ||| c == ';'
    ||| c == ':'
    ||| c == '\u{2014}'
    ||| c == '-'
    ||| c == '('
    ||| c == ')'
    ||| c == '['
    ||| c == ']'
    ||| c == '}'
    ||| c == ' '
}

/// The recognized boundary characters, as a sequence.
pub open spec fn spec_splitters() -> Seq<char> {
    seq!['.', ',', '?', '!', ';', ':', '\u{2014}', '-', '(', ')', '[', ']', '}', ' ']
}

/// The boundary test: non-empty, not exactly one space, and the last
/// character is a boundary character.
pub open spec fn spec_is_boundary(s: Seq<char>) -> bool {
    &&& s.len() > 0
    &&& !(s.len() == 1 && s[0] == ' ')
    &&& spec_is_splitter(s.last())
}

/// `s` ends with some character of `splitters`, is non-empty, and is
/// not exactly one space.
pub open spec fn spec_ends_with_splitter(splitters: Seq<char>, s: Seq<char>) -> bool {
    &&& s.len() > 0
    &&& !(s.len() == 1 && s[0] == ' ')
    &&& exists|i: int| 0 <= i < splitters.len() && s.last() == splitters[i]
}

pub fn is_splitter_char(c: char) -> (r: bool)
    ensures
        r == spec_is_splitter(c),
{
    c == '.' || c == ',' || c == '?' || c == '!' || c == ';' || c == ':' || c == '\u{2014}'
        || c == '-' || c == '(' || c == ')' || c == '[' || c == ']' || c == '}' || c == ' '
}

/// The splitter set used throughout the pipeline.
pub fn default_splitters() -> (v: Vec<char>)
    ensures
        v@ == spec_splitters(),
{
    let mut v: Vec<char> = Vec::new();
    v.push('.');
    v.push(',');
    v.push('?');
    v.push('!');
    v.push(';');
    v.push(':');
    v.push('\u{2014}');
    v.push('-');
    v.push('(');
    v.push(')');
    v.push('[');
    v.push(']');
    v.push('}');
    v.push(' ');
    proof {
        assert(v@ =~= spec_splitters());
    }
    v
}

/// The boundary test on a string slice, with the fixed splitter set.
pub fn is_boundary(chunk: &str) -> (r: bool)
    ensures
        r == spec_is_boundary(chunk@),
{
    let n = chunk.unicode_len();
    if n == 0 {
        return false;
    }
    let last = chunk.get_char(n - 1);
    if n == 1 && last == ' ' {
        return false;
    }
    is_splitter_char(last)
}

/// `chunk` is non-empty, not exactly one space, and ends with one of
/// the characters in `splitters`.
pub fn ends_with_splitter(splitters: &[char], chunk: &str) -> (r: bool)
    ensures
        r == spec_ends_with_splitter(splitters@, chunk@),
{
    let n = chunk.unicode_len();
    if n == 0 {
        return false;
    }
    let last = chunk.get_char(n - 1);
    if n == 1 && last == ' ' {
        return false;
    }
    let mut i: usize = 0;
    while i < splitters.len()
        invariant
            0 <= i <= splitters@.len(),
            n == chunk@.len(),
            n >= 1,
            last == chunk@.last(),
            !(n == 1 && chunk@[0] == ' '),
            forall|j: int| 0 <= j < i ==> chunk@.last() != splitters@[j],
        decreases splitters@.len() - i,
    {
        if last == splitters[i] {
            return true;
        }
        i += 1;
    }
    false
}

/// Boundary detection: any non-empty string other than exactly one
/// space that ends in a boundary character passes the boundary test;
/// the empty string and the single space fail it.
pub proof fn lemma_boundary_detection(s: Seq<char>)
    ensures
        (s.len() > 0 && !(s.len() == 1 && s[0] == ' ') && spec_is_splitter(s.last()))
            ==> spec_is_boundary(s),
        s.len() == 0 ==> !spec_is_boundary(s),
        (s.len() == 1 && s[0] == ' ') ==> !spec_is_boundary(s),
{
}

/// With the fixed splitter set, `ends_with_splitter` and the boundary
/// test agree.
pub proof fn lemma_splitters_boundary(s: Seq<char>)
    ensures
        spec_ends_with_splitter(spec_splitters(), s) == spec_is_boundary(s),
{
    if spec_is_boundary(s) {
        if s.last() == '.' {
            assert(s.last() == spec_splitters()[0]);
        } else if s.last() == ',' {
            assert(s.last() == spec_splitters()[1]);
        } else if s.last() == '?' {
            assert(s.last() == spec_splitters()[2]);
        } else if s.last() == '!' {
            assert(s.last() == spec_splitters()[3]);
        } else if s.last() == ';' {
            assert(s.last() == spec_splitters()[4]);
        } else if s.last() == ':' {
            assert(s.last() == spec_splitters()[5]);
        } else if s.last() == '\u{2014}' {
            assert(s.last() == spec_splitters()[6]);
        } else if s.last() == '-' {
            assert(s.last() == spec_splitters()[7]);
        } else if s.last() == '(' {
            assert(s.last() == spec_splitters()[8]);
        } else if s.last() == ')' {
            assert(s.last() == spec_splitters()[9]);
        } else if s.last() == '[' {
            assert(s.last() == spec_splitters()[10]);
        } else if s.last() == ']' {
            assert(s.last() == spec_splitters()[11]);
        } else if s.last() == '}' {
            assert(s.last() == spec_splitters()[12]);
        } else {
            assert(s.last() == spec_splitters()[13]);
        }
    }
}

} // verus!

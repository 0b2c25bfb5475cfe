//! The explicit quote converter: LaTeX-style backtick/apostrophe markers
//! mapped to curly quotes by fixed substitution, with no inspection of the
//! surrounding context.

use vstd::prelude::*;

verus! {

use crate::buffer::chars_to_string;

/// The explicit converter's output on `s`: one left-to-right greedy pass,
/// the doubled markers matched before their single-character components
/// (else a doubled marker would be eaten piecemeal):
///
/// * ` `` ` becomes an opening double quote, `''` a closing double quote;
/// * a remaining backtick becomes an opening single quote, a remaining
///   apostrophe a closing single quote;
/// * `"` becomes a closing double quote (the fallback this mode uses,
///   since it tracks no directionality);
/// * everything else passes through unchanged.
pub open spec fn spec_explicit(s: Seq<char>) -> Seq<char>
    decreases s.len(),
{
    if s.len() == 0 {
        Seq::empty()
    } else if s.len() >= 2 && s[0] == '`' && s[1] == '`' {
        seq!['\u{201c}'] + spec_explicit(s.skip(2))
    } else if s.len() >= 2 && s[0] == '\'' && s[1] == '\'' {
        seq!['\u{201d}'] + spec_explicit(s.skip(2))
    } else if s[0] == '`' {
        seq!['\u{2018}'] + spec_explicit(s.skip(1))
    } else if s[0] == '\'' {
        seq!['\u{2019}'] + spec_explicit(s.skip(1))
    } else if s[0] == '"' {
        seq!['\u{201d}'] + spec_explicit(s.skip(1))
    } else {
        seq![s[0]] + spec_explicit(s.skip(1))
    }
}

/// Explicit LaTeX-style quote conversion: pure string substitution of the
/// backtick/apostrophe markers, doubled forms first, independent of
/// surrounding context.
pub fn smart_quotes_explicit(input: &str) -> (res: String)
    ensures
        res@ == spec_explicit(input@),
{
    let n: usize = input.unicode_len();
    let mut buf: Vec<char> = Vec::new();
    let mut i: usize = 0;
    proof {
        assert(input@.skip(0) =~= input@);
        assert(Seq::<char>::empty() + spec_explicit(input@) =~= spec_explicit(input@));
    }
    while i < n
        invariant
            n == input@.len(),
            i <= n,
            spec_explicit(input@) == buf@ + spec_explicit(input@.skip(i as int)),
        decreases n - i,
    {
        let ghost s = input@;
        let ghost old_i = i as int;
        let ghost old_buf = buf@;
        let c = input.get_char(i);
        if c == '`' && i + 1 < n && input.get_char(i + 1) == '`' {
            buf.push('\u{201c}');
            i = i + 2;
        } else if c == '\'' && i + 1 < n && input.get_char(i + 1) == '\'' {
            buf.push('\u{201d}');
            i = i + 2;
        } else if c == '`' {
            buf.push('\u{2018}');
            i = i + 1;
        } else if c == '\'' {
            buf.push('\u{2019}');
            i = i + 1;
        } else if c == '"' {
            buf.push('\u{201d}');
            i = i + 1;
        } else {
            buf.push(c);
            i = i + 1;
        }
        proof {
            let step: int = i as int - old_i;
            assert(s.skip(old_i).skip(step) =~= s.skip(old_i + step));
            assert(old_buf + spec_explicit(s.skip(old_i)) =~= buf@ + spec_explicit(
                s.skip(i as int),
            ));
        }
    }
    proof {
        assert(input@.skip(n as int) =~= Seq::<char>::empty());
        assert(buf@ + spec_explicit(input@.skip(n as int)) =~= buf@);
    }
    chars_to_string(&buf)
}

} // verus!

//! The punctuation collapser: the post-pass, common to both quote
//! converters, that collapses hyphen runs into dashes and period runs
//! into the ellipsis character.

use vstd::prelude::*;

verus! {

use crate::buffer::chars_to_string;

/// The collapser's output on `s`: one left-to-right greedy pass with the
/// longest-match-first tie-break (a triple hyphen is matched before a
/// double one, so `---` gives one em-dash, never an en-dash and a stray
/// hyphen):
///
/// * `---` becomes an em-dash, consuming all three hyphens;
/// * `--` becomes an en-dash;
/// * `...` becomes an ellipsis; one or two periods pass through;
/// * everything else passes through unchanged.
///
/// Characters after the first three of a longer run restart the same
/// matching from the new position.
pub open spec fn spec_collapse(s: Seq<char>) -> Seq<char>
    decreases s.len(),
{
    if s.len() == 0 {
        Seq::empty()
    } else if s.len() >= 3 && s[0] == '-' && s[1] == '-' && s[2] == '-' {
        seq!['\u{2014}'] + spec_collapse(s.skip(3))
    } else if s.len() >= 2 && s[0] == '-' && s[1] == '-' {
        seq!['\u{2013}'] + spec_collapse(s.skip(2))
    } else if s.len() >= 3 && s[0] == '.' && s[1] == '.' && s[2] == '.' {
        seq!['\u{2026}'] + spec_collapse(s.skip(3))
    } else {
        seq![s[0]] + spec_collapse(s.skip(1))
    }
}

/// Collapses punctuation runs: `---` to an em-dash, `--` to an en-dash,
/// `...` to an ellipsis, longest match first, consumed characters never
/// reprocessed. All other characters pass through unchanged.
pub fn collapse_punctuation(input: &str) -> (res: String)
    ensures
        res@ == spec_collapse(input@),
{
    let n: usize = input.unicode_len();
    let mut buf: Vec<char> = Vec::new();
    let mut i: usize = 0;
    proof {
        assert(input@.skip(0) =~= input@);
        assert(Seq::<char>::empty() + spec_collapse(input@) =~= spec_collapse(input@));
    }
    while i < n
        invariant
            n == input@.len(),
            i <= n,
            spec_collapse(input@) == buf@ + spec_collapse(input@.skip(i as int)),
        decreases n - i,
    {
        let ghost s = input@;
        let ghost old_i = i as int;
        let ghost old_buf = buf@;
        let c = input.get_char(i);
        if c == '-' && n - i > 2 && input.get_char(i + 1) == '-' && input.get_char(i + 2) == '-' {
            buf.push('\u{2014}');
            i = i + 3;
        } else if c == '-' && n - i > 1 && input.get_char(i + 1) == '-' {
            buf.push('\u{2013}');
            i = i + 2;
        } else if c == '.' && n - i > 2 && input.get_char(i + 1) == '.' && input.get_char(i + 2)
            == '.' {
            buf.push('\u{2026}');
            i = i + 3;
        } else {
            buf.push(c);
            i = i + 1;
        }
        proof {
            let step: int = i as int - old_i;
            assert(s.skip(old_i).skip(step) =~= s.skip(old_i + step));
            assert(old_buf + spec_collapse(s.skip(old_i)) =~= buf@ + spec_collapse(
                s.skip(i as int),
            ));
        }
    }
    proof {
        assert(input@.skip(n as int) =~= Seq::<char>::empty());
        assert(buf@ + spec_collapse(input@.skip(n as int)) =~= buf@);
    }
    chars_to_string(&buf)
}

} // verus!

//! Text helpers over the character view of strings.

use vstd::prelude::*;

verus! {

/// Whether `pat` occurs in `s` as a contiguous run of characters.
pub open spec fn seq_contains(s: Seq<char>, pat: Seq<char>) -> bool {
    exists|i: int| 0 <= i && i + pat.len() <= s.len() && #[trigger] s.subrange(i, i + pat.len()) == pat
}

/// Relies on `str::contains` with a `&str` pattern: true exactly when the
/// pattern matches a contiguous part of the string.
#[verifier::external_body]
pub(crate) fn text_contains(s: &str, pat: &str) -> (r: bool)
    ensures
        r == seq_contains(s@, pat@),
{
    s.contains(pat)
}

/// The path of the file `"{dir}/{id}.wav"`; no separator is added after an
/// empty directory or one that already ends with `/`.
pub open spec fn wav_path(dir: Seq<char>, id: Seq<char>) -> Seq<char> {
    let sep: Seq<char> = if dir.len() == 0 || dir.last() == '/' {
        Seq::empty()
    } else {
        seq!['/']
    };
    dir + sep + id + seq!['.', 'w', 'a', 'v']
}

/// Builds the output path of a recording from its directory and id.
pub fn output_path(dir: &str, recording_id: &str) -> (r: String)
    ensures
        r@ == wav_path(dir@, recording_id@),
{
    let mut p = dir.to_owned();
    let n = dir.unicode_len();
    let needs_sep = n > 0 && dir.get_char(n - 1) != '/';
    if needs_sep {
        let sep = "/";
        proof {
            reveal_strlit("/");
        }
        p.append(sep);
    }
    p.append(recording_id);
    let ext = ".wav";
    proof {
        reveal_strlit(".wav");
    }
    p.append(ext);
    assert(p@ =~= wav_path(dir@, recording_id@));
    p
}

} // verus!

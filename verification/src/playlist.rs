//! Decoding the metadata resolver's output: the external downloader
//! prints one JSON object per line, each carrying a track's stream URL
//! and title. Splitting into lines and walking them is verified; decoding
//! a single line is delegated to `serde_json` behind a trusted wrapper.

use vstd::prelude::*;

verus! {

/// Title and stream URL of one track, as the metadata resolver reports it.
#[derive(Clone, Debug)]
pub struct Metadata {
    pub url: String,
    pub title: String,
}

/// The URL/title pairs of a list of metadata entries.
pub open spec fn metadata_reps(items: Seq<Metadata>) -> Seq<(Seq<char>, Seq<char>)> {
    items.map_values(|m: Metadata| (m.url@, m.title@))
}

/// What decoding one line of resolver output yields: the `url` and
/// `title` string fields if the line is a JSON object carrying both,
/// nothing otherwise. The result is a function of the line alone.
pub uninterp spec fn json_track_of(line: Seq<char>) -> Option<(Seq<char>, Seq<char>)>;

/// Relies on `serde_json::from_str` and `serde_json::Value::{get, as_str}`:
/// decodes `line` as a JSON value and reads its `url` and `title` string
/// fields. The outcome depends on the characters of the line alone.
#[verifier::external_body]
fn parse_track_line(line: &str) -> (r: Option<Metadata>)
    ensures
        r.is_some() == json_track_of(line@).is_some(),
        r.is_some() ==> (r.unwrap().url@, r.unwrap().title@) == json_track_of(line@).unwrap(),
{
    let value: serde_json::Value = serde_json::from_str(line).ok()?;
    let url = value.get("url")?.as_str()?.to_owned();
    let title = value.get("title")?.as_str()?.to_owned();
    Some(Metadata { url, title })
}

/// The first index `j >= i` at which `s` holds a line feed, or `s.len()`.
pub open spec fn line_end(s: Seq<char>, i: int) -> int
    decreases s.len() - i,
{
    if i < 0 || i >= s.len() {
        s.len() as int
    } else if s[i] == '\n' {
        i
    } else {
        line_end(s, i + 1)
    }
}

/// `l` with one trailing carriage return removed.
pub open spec fn strip_cr(l: Seq<char>) -> Seq<char> {
    if l.len() > 0 && l.last() == '\r' {
        l.drop_last()
    } else {
        l
    }
}

/// The lines of `s` from index `i` on: split at each line feed, a
/// carriage return before a line feed stripped, and no empty piece after
/// a final line feed. A last piece without a line feed is kept as it is.
pub open spec fn spec_lines_from(s: Seq<char>, i: int) -> Seq<Seq<char>>
    decreases s.len() - i
    via spec_lines_from_dec
{
    if i < 0 || i >= s.len() {
        Seq::empty()
    } else {
        let e = line_end(s, i);
        if e == s.len() {
            seq![s.subrange(i, e)]
        } else {
            seq![strip_cr(s.subrange(i, e))].add(spec_lines_from(s, e + 1))
        }
    }
}

/// The lines of `s`.
pub open spec fn spec_lines(s: Seq<char>) -> Seq<Seq<char>> {
    spec_lines_from(s, 0)
}

#[via_fn]
proof fn spec_lines_from_dec(s: Seq<char>, i: int) {
    if 0 <= i < s.len() {
        lemma_line_end_bounds(s, i);
    }
}

proof fn lemma_line_end_bounds(s: Seq<char>, i: int)
    requires
        0 <= i <= s.len(),
    ensures
        i <= line_end(s, i) <= s.len(),
        line_end(s, i) < s.len() ==> s[line_end(s, i)] == '\n',
    decreases s.len() - i,
{
    if i < s.len() && s[i] != '\n' {
        lemma_line_end_bounds(s, i + 1);
    }
}

/// Finds `line_end(s@, from)` by scanning.
fn find_line_end(s: &str, from: usize) -> (e: usize)
    requires
        from <= s@.len(),
    ensures
        e == line_end(s@, from as int),
        from <= e <= s@.len(),
{
    let len = s.unicode_len();
    let mut i: usize = from;
    while i < len
        invariant
            from <= i <= len,
            len == s@.len(),
            line_end(s@, from as int) == line_end(s@, i as int),
        decreases len - i,
    {
        if s.get_char(i) == '\n' {
            return i;
        }
        i += 1;
    }
    i
}

/// Splits `s` into its lines.
pub fn split_lines(s: &str) -> (lines: Vec<String>)
    ensures
        lines@.map_values(|l: String| l@) == spec_lines(s@),
{
    let len = s.unicode_len();
    let mut lines: Vec<String> = Vec::new();
    let mut pos: usize = 0;
    while pos < len
        invariant
            pos <= len == s@.len(),
            spec_lines(s@) =~= lines@.map_values(|l: String| l@) + spec_lines_from(
                s@,
                pos as int,
            ),
        decreases len - pos,
    {
        let e = find_line_end(s, pos);
        proof {
            lemma_line_end_bounds(s@, pos as int);
        }
        if e == len {
            let line = s.substring_char(pos, e);
            lines.push(String::from_str(line));
            proof {
                assert(spec_lines_from(s@, pos as int) =~= seq![
                    s@.subrange(pos as int, e as int),
                ]);
                assert(lines@.map_values(|l: String| l@) =~= lines@.map_values(
                    |l: String| l@,
                ).drop_last().push(s@.subrange(pos as int, e as int)));
            }
            pos = e;
            proof {
                assert(spec_lines(s@) =~= lines@.map_values(|l: String| l@) + spec_lines_from(
                    s@,
                    pos as int,
                ));
            }
        } else {
            let end2 = if e > pos && s.get_char(e - 1) == '\r' {
                e - 1
            } else {
                e
            };
            let line = s.substring_char(pos, end2);
            lines.push(String::from_str(line));
            proof {
                assert(s@.subrange(pos as int, end2 as int) =~= strip_cr(
                    s@.subrange(pos as int, e as int),
                ));
                assert(spec_lines_from(s@, pos as int) =~= seq![
                    strip_cr(s@.subrange(pos as int, e as int)),
                ].add(spec_lines_from(s@, e as int + 1)));
                assert(lines@.map_values(|l: String| l@) =~= lines@.map_values(
                    |l: String| l@,
                ).drop_last().push(strip_cr(s@.subrange(pos as int, e as int))));
            }
            pos = e + 1;
            proof {
                assert(spec_lines(s@) =~= lines@.map_values(|l: String| l@) + spec_lines_from(
                    s@,
                    pos as int,
                ));
            }
        }
    }
    proof {
        assert(spec_lines_from(s@, pos as int) =~= Seq::<Seq<char>>::empty());
        assert(spec_lines(s@) =~= lines@.map_values(|l: String| l@));
    }
    lines
}

/// Why querying the playlist yielded no tracks.
#[derive(Clone, Copy, Debug, PartialEq, Eq)]
pub enum PlaylistError {
    /// The resolver exited unsuccessfully.
    QueryFailed,
    /// A line of the resolver's output is not a track object.
    InvalidLine,
}

/// Decodes the resolver's output into track metadata: `success` is
/// whether the resolver exited successfully, `out` what it printed, one
/// JSON object per line. Yields the tracks exactly when the resolver
/// succeeded and every line decodes.
pub fn parse_playlist_output(success: bool, out: &str) -> (r: Result<Vec<Metadata>, PlaylistError>)
    ensures
        !success ==> r == Err::<Vec<Metadata>, PlaylistError>(PlaylistError::QueryFailed),
        success ==> match r {
            Ok(items) => {
                &&& forall|i: int|
                    0 <= i < spec_lines(out@).len() ==> (#[trigger] json_track_of(
                        spec_lines(out@)[i],
                    )).is_some()
                &&& metadata_reps(items@) == spec_lines(out@).map_values(
                    |l: Seq<char>| json_track_of(l).unwrap(),
                )
            },
            Err(e) => {
                &&& e == PlaylistError::InvalidLine
                &&& exists|i: int|
                    0 <= i < spec_lines(out@).len() && (#[trigger] json_track_of(
                        spec_lines(out@)[i],
                    )).is_none()
            },
        },
{
    if !success {
        return Err(PlaylistError::QueryFailed);
    }
    let lines = split_lines(out);
    let n = lines.len();
    let ghost lviews = spec_lines(out@);
    let mut items: Vec<Metadata> = Vec::new();
    let mut i: usize = 0;
    while i < n
        invariant
            success,
            i <= n == lviews.len(),
            lviews == spec_lines(out@),
            lines@.map_values(|l: String| l@) == lviews,
            forall|j: int| 0 <= j < i ==> (#[trigger] json_track_of(lviews[j])).is_some(),
            metadata_reps(items@) =~= lviews.take(i as int).map_values(
                |l: Seq<char>| json_track_of(l).unwrap(),
            ),
        decreases n - i,
    {
        match parse_track_line(lines[i].as_str()) {
            Some(m) => {
                let ghost prev = items@;
                let ghost rep = (m.url@, m.title@);
                items.push(m);
                proof {
                    assert(metadata_reps(items@) =~= metadata_reps(prev).push(rep));
                    assert(lviews.take(i as int + 1).drop_last() =~= lviews.take(i as int));
                    assert(lviews.take(i as int + 1).last() == lviews[i as int]);
                    assert(rep == json_track_of(lviews[i as int]).unwrap());
                    assert(metadata_reps(items@) =~= lviews.take(i as int + 1).map_values(
                        |l: Seq<char>| json_track_of(l).unwrap(),
                    ));
                }
            },
            None => {
                proof {
                    assert(json_track_of(lviews[i as int]).is_none());
                }
                return Err(PlaylistError::InvalidLine);
            },
        }
        i += 1;
    }
    proof {
        assert(lviews.take(n as int) =~= lviews);
    }
    Ok(items)
}

} // verus!

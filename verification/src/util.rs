//! File names made from arbitrary text: characters that file systems refuse
//! are dropped, and names that are too long keep their head and their tail.
//!
//! Text is cut into extended grapheme clusters, so that a character and the
//! marks that combine with it are kept or dropped together.

use unicode_segmentation::UnicodeSegmentation;
use vstd::prelude::*;
use vstd::string::StringExecFns;

verus! {

/// What stands between the head and the tail of a truncated name.
pub const ELLIPSIS: &'static str = "...";

/// The number of grapheme clusters in [`ELLIPSIS`].
pub const ELLIPSIS_LEN: usize = 3;

/// The number of grapheme clusters to which the name of a playlist's
/// directory is shortened.
pub const MAX_NAME_LENGTH: usize = 200;

/// The extended grapheme clusters of a text, in order, as
/// `unicode_segmentation` cuts them.
pub uninterp spec fn graphemes(text: Seq<char>) -> Seq<Seq<char>>;

/// `UnicodeSegmentation::graphemes` with extended clusters, each cluster as a
/// string of its own.
#[verifier::external_body]
fn grapheme_clusters(text: &str) -> (clusters: Vec<String>)
    ensures
        clusters.deep_view() == graphemes(text@),
{
    UnicodeSegmentation::graphemes(text, true).map(String::from).collect()
}

/// Whether a character has the Unicode property `White_Space`.
pub open spec fn is_white_space(c: char) -> bool {
    let code = c as u32;
    ||| 0x09 <= code <= 0x0D
    ||| code == 0x20
    ||| code == 0x85
    ||| code == 0xA0
    ||| code == 0x1680
    ||| 0x2000 <= code <= 0x200A
    ||| code == 0x2028
    ||| code == 0x2029
    ||| code == 0x202F
    ||| code == 0x205F
    ||| code == 0x3000
}

/// A text without the white space at its start.
pub open spec fn trimmed_start(text: Seq<char>) -> Seq<char>
    decreases text.len(),
{
    if text.len() > 0 && is_white_space(text[0]) {
        trimmed_start(text.subrange(1, text.len() as int))
    } else {
        text
    }
}

/// A text without the white space at its end.
pub open spec fn trimmed_end(text: Seq<char>) -> Seq<char>
    decreases text.len(),
{
    if text.len() > 0 && is_white_space(text.last()) {
        trimmed_end(text.drop_last())
    } else {
        text
    }
}

/// A text without the white space at its start and at its end.
pub open spec fn trimmed(text: Seq<char>) -> Seq<char> {
    trimmed_end(trimmed_start(text))
}

/// `str::trim`: the text without leading and trailing white space, where
/// white space is what the Unicode property `White_Space` says.
#[verifier::external_body]
fn trim(text: &str) -> (inner: &str)
    ensures
        inner@ == trimmed(text@),
{
    text.trim()
}

/// Whether a grapheme cluster is one of the nine characters that may not
/// stand in a file name.
pub open spec fn is_special(cluster: Seq<char>) -> bool {
    ||| cluster == "/"@
    ||| cluster == ":"@
    ||| cluster == "*"@
    ||| cluster == "?"@
    ||| cluster == "\""@
    ||| cluster == "<"@
    ||| cluster == ">"@
    ||| cluster == "|"@
    ||| cluster == "\\"@
}

/// The texts of a sequence, one behind the other.
pub open spec fn concat_all(parts: Seq<Seq<char>>) -> Seq<char>
    decreases parts.len(),
{
    if parts.len() == 0 {
        Seq::empty()
    } else {
        concat_all(parts.drop_last()) + parts.last()
    }
}

/// The clusters of a sequence that may stand in a file name, one behind the
/// other.
pub open spec fn concat_allowed(clusters: Seq<Seq<char>>) -> Seq<char>
    decreases clusters.len(),
{
    if clusters.len() == 0 {
        Seq::empty()
    } else if is_special(clusters.last()) {
        concat_allowed(clusters.drop_last())
    } else {
        concat_allowed(clusters.drop_last()) + clusters.last()
    }
}

/// A text as a file name: without the grapheme clusters that are special
/// characters, and then without white space at either end.
pub open spec fn sanitized(text: Seq<char>) -> Seq<char> {
    trimmed(concat_allowed(graphemes(text)))
}

/// A text as a file name of at most `max_length` grapheme clusters. A
/// sanitized name that is short enough stays as it is. A longer one keeps its
/// head and its tail with an ellipsis between them, the tail being the longer
/// by one where they cannot be equal; where the ellipsis alone fills the
/// length, it is all that is left.
pub open spec fn truncated(text: Seq<char>, max_length: nat) -> Seq<char> {
    let clean = sanitized(text);
    let clusters = graphemes(clean);
    if clusters.len() <= max_length {
        clean
    } else if max_length <= ELLIPSIS_LEN {
        ELLIPSIS@
    } else {
        let available = max_length - ELLIPSIS_LEN;
        let head_len = available / 2;
        let tail_len = available - head_len;
        concat_all(clusters.subrange(0, head_len)) + ELLIPSIS@ + concat_all(
            clusters.subrange(clusters.len() - tail_len, clusters.len() as int),
        )
    }
}

/// Whether two texts are the same.
pub fn same_text(a: &str, b: &str) -> (same: bool)
    ensures
        same == (a@ == b@),
{
    a.to_owned() == b.to_owned()
}

fn special(cluster: &str) -> (found: bool)
    ensures
        found == is_special(cluster@),
{
    same_text(cluster, "/") || same_text(cluster, ":") || same_text(cluster, "*") || same_text(
        cluster,
        "?",
    ) || same_text(cluster, "\"") || same_text(cluster, "<") || same_text(cluster, ">")
        || same_text(cluster, "|") || same_text(cluster, "\\")
}

/// Puts the texts `parts[from..to]` one behind the other.
pub fn concat_range(parts: &Vec<String>, from: usize, to: usize) -> (text: String)
    requires
        from <= to <= parts.len(),
    ensures
        text@ == concat_all(parts.deep_view().subrange(from as int, to as int)),
{
    let mut text = String::new();
    let mut i = from;
    while i < to
        invariant
            from <= i <= to <= parts.len(),
            text@ == concat_all(parts.deep_view().subrange(from as int, i as int)),
        decreases to - i,
    {
        proof {
            let next = parts.deep_view().subrange(from as int, i + 1);
            assert(next.drop_last() =~= parts.deep_view().subrange(from as int, i as int));
        }
        text.append(parts[i].as_str());
        i = i + 1;
    }
    text
}

/// The texts of a sequence, one behind the other, with `separator` between
/// each two.
pub open spec fn joined(parts: Seq<Seq<char>>, separator: Seq<char>) -> Seq<char>
    decreases parts.len(),
{
    if parts.len() == 0 {
        Seq::empty()
    } else if parts.len() == 1 {
        parts[0]
    } else {
        joined(parts.drop_last(), separator) + separator + parts.last()
    }
}

/// Puts the texts one behind the other, with `separator` between each two.
pub fn join(parts: &Vec<String>, separator: &str) -> (text: String)
    ensures
        text@ == joined(parts.deep_view(), separator@),
{
    let mut text = String::new();
    let mut i: usize = 0;
    while i < parts.len()
        invariant
            i <= parts.len(),
            text@ == joined(parts.deep_view().subrange(0, i as int), separator@),
        decreases parts.len() - i,
    {
        proof {
            let next = parts.deep_view().subrange(0, i + 1);
            assert(next.drop_last() =~= parts.deep_view().subrange(0, i as int));
        }
        if i > 0 {
            text.append(separator);
        }
        text.append(parts[i].as_str());
        i = i + 1;
    }
    assert(parts.deep_view().subrange(0, i as int) =~= parts.deep_view());
    text
}

/// The sanitized form of each text of a sequence.
pub open spec fn sanitized_each(texts: Seq<Seq<char>>) -> Seq<Seq<char>> {
    Seq::new(texts.len(), |i: int| sanitized(texts[i]))
}

/// Sanitizes each text.
pub fn sanitize_each(texts: &Vec<String>) -> (names: Vec<String>)
    ensures
        names.deep_view() == sanitized_each(texts.deep_view()),
{
    let mut names: Vec<String> = Vec::new();
    let mut i: usize = 0;
    while i < texts.len()
        invariant
            i <= texts.len(),
            names@.len() == i,
            forall|k: int| 0 <= k < i ==> (#[trigger] names@[k])@ == sanitized(texts@[k]@),
        decreases texts.len() - i,
    {
        names.push(sanitize_filename(texts[i].as_str()));
        i = i + 1;
    }
    names
}

/// Removes from a text what may not stand in a file name.
pub fn sanitize_filename(filename: &str) -> (name: String)
    ensures
        name@ == sanitized(filename@),
{
    let clusters = grapheme_clusters(filename);
    let mut kept = String::new();
    let mut i: usize = 0;
    while i < clusters.len()
        invariant
            i <= clusters.len(),
            kept@ == concat_allowed(clusters.deep_view().subrange(0, i as int)),
        decreases clusters.len() - i,
    {
        proof {
            let next = clusters.deep_view().subrange(0, i + 1);
            assert(next.drop_last() =~= clusters.deep_view().subrange(0, i as int));
        }
        if !special(clusters[i].as_str()) {
            kept.append(clusters[i].as_str());
        }
        i = i + 1;
    }
    assert(clusters.deep_view().subrange(0, i as int) =~= clusters.deep_view());
    trim(kept.as_str()).to_owned()
}

/// Sanitizes a text and shortens it to at most `max_length` grapheme
/// clusters, keeping its head and its tail around an ellipsis.
pub fn truncate_filename(filename: &str, max_length: usize) -> (name: String)
    ensures
        name@ == truncated(filename@, max_length as nat),
{
    let filename = sanitize_filename(filename);
    let clusters = grapheme_clusters(filename.as_str());
    let total_len = clusters.len();
    if total_len <= max_length {
        return filename;
    }
    if max_length <= ELLIPSIS_LEN {
        return ELLIPSIS.to_owned();
    }
    let available_len = max_length - ELLIPSIS_LEN;
    let head_len = available_len / 2;
    let tail_len = available_len - head_len;
    let head = concat_range(&clusters, 0, head_len);
    let tail = concat_range(&clusters, total_len - tail_len, total_len);
    head.concat(ELLIPSIS).concat(tail.as_str())
}

} // verus!

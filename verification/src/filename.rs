use vstd::prelude::*;
use vstd::string::StringExecFns;
use rand::Rng;
use crate::numfmt::{int_dec, i64_to_dec_string};
use crate::track::TrackItem;

verus! {

/// The length of the random file-name prefix.
pub const PREFIX_LEN: usize = 30;

/// An ASCII letter or digit.
pub open spec fn is_ascii_alphanumeric_char(c: char) -> bool {
    ('0' <= c && c <= '9') || ('A' <= c && c <= 'Z') || ('a' <= c && c <= 'z')
}

/// Relies on rand's Alphanumeric distribution: every sampled byte is an
/// ASCII letter or digit, and exactly `PREFIX_LEN` samples are taken.
#[verifier::external_body]
fn random_alphanumeric_prefix() -> (r: String)
    ensures
        r@.len() == PREFIX_LEN,
        forall|i: int| 0 <= i < r@.len() ==> is_ascii_alphanumeric_char(r@[i]),
{
    rand::thread_rng().sample_iter(&rand::distributions::Alphanumeric).map(char::from).take(
        PREFIX_LEN,
    ).collect()
}

/// The deterministic tail of a download file name: a leading underscore,
/// then the underscore-joined id, isrc, title and performer name, then
/// the fixed audio extension.
pub open spec fn file_suffix(
    id: int,
    isrc: Seq<char>,
    title: Seq<char>,
    performer: Seq<char>,
) -> Seq<char> {
    seq!['_'] + int_dec(id) + seq!['_'] + isrc + seq!['_'] + title + seq!['_'] + performer + seq![
        '.',
        'f',
        'l',
        'a',
        'c',
    ]
}

/// Appends the deterministic suffix for a track's fields to a given
/// prefix.
pub fn build_file_name(prefix: String, id: i64, isrc: &str, title: &str, performer: &str) -> (r:
    String)
    ensures
        r@ == prefix@ + file_suffix(id as int, isrc@, title@, performer@),
{
    proof {
        reveal_strlit("_");
        reveal_strlit(".flac");
        assert("_"@ =~= seq!['_']);
        assert(".flac"@ =~= seq!['.', 'f', 'l', 'a', 'c']);
    }
    let ghost prefix_view = prefix@;
    let mut s = prefix;
    s.append("_");
    let id_text = i64_to_dec_string(id);
    s.append(id_text.as_str());
    s.append("_");
    s.append(isrc);
    s.append("_");
    s.append(title);
    s.append("_");
    s.append(performer);
    s.append(".flac");
    proof {
        assert(s@ =~= prefix_view + file_suffix(id as int, isrc@, title@, performer@));
    }
    s
}

/// Constructs the output file name for a selected track: a random
/// 30-character alphanumeric prefix, then the track's deterministic
/// suffix.
pub fn make_download_file_name(item: &TrackItem) -> (r: String)
    ensures
        r@.len() == PREFIX_LEN + file_suffix(
            item.id as int,
            item.isrc@,
            item.title@,
            item.performer.name@,
        ).len(),
        r@.skip(PREFIX_LEN as int) == file_suffix(
            item.id as int,
            item.isrc@,
            item.title@,
            item.performer.name@,
        ),
        forall|i: int| 0 <= i < PREFIX_LEN ==> is_ascii_alphanumeric_char(r@[i]),
{
    let prefix = random_alphanumeric_prefix();
    let r = build_file_name(
        prefix,
        item.id,
        item.isrc.as_str(),
        item.title.as_str(),
        item.performer.name.as_str(),
    );
    proof {
        assert(r@.skip(PREFIX_LEN as int) =~= file_suffix(
            item.id as int,
            item.isrc@,
            item.title@,
            item.performer.name@,
        ));
    }
    r
}

/// The file name built for the record with id 7, isrc "X1", title "T" and
/// performer "P" carries the marker "_7_X1_T_P" right after the prefix,
/// whatever the prefix is.
pub proof fn lemma_filename_marker(prefix: Seq<char>)
    ensures
        (prefix + file_suffix(7, "X1"@, "T"@, "P"@)).subrange(
            prefix.len() as int,
            prefix.len() as int + 9,
        ) == "_7_X1_T_P"@,
{
    reveal_strlit("X1");
    reveal_strlit("T");
    reveal_strlit("P");
    reveal_strlit("_7_X1_T_P");
    assert(int_dec(7) =~= seq!['7']);
    assert((prefix + file_suffix(7, "X1"@, "T"@, "P"@)).subrange(
        prefix.len() as int,
        prefix.len() as int + 9,
    ) =~= "_7_X1_T_P"@);
}

} // verus!

//! Naming the preview snippets of an audio file. Decoding and cutting the
//! audio is left to the program around the library.

use vstd::prelude::*;
use vstd::string::StringExecFns;
use crate::text::{decimal, decimal_text};

verus! {

/// The lengths of the previews, in seconds.
pub open spec fn preview_durations() -> Seq<u64> {
    seq![30, 60, 90]
}

/// The length of one chunk of a preview, in seconds.
pub const CHUNK_SECONDS: u64 = 10;

/// The file name of the preview of `duration` seconds for an audio file whose
/// name without extension is `stem`. Previews are always WAV files.
pub open spec fn snippet_name(stem: Seq<char>, duration: u64) -> Seq<char> {
    stem + "_preview_"@ + decimal_text(duration as nat) + "s.wav"@
}

/// The number of chunks that a preview of `duration` seconds is cut into, if
/// previews of that length are made at all: three, six or nine chunks of ten
/// seconds.
pub open spec fn chunk_count(duration: u64) -> Option<u64> {
    if duration / CHUNK_SECONDS == 3 || duration / CHUNK_SECONDS == 6 || duration / CHUNK_SECONDS
        == 9 {
        Some(duration / CHUNK_SECONDS)
    } else {
        None
    }
}

/// The file name of the preview of `duration` seconds. It is to be placed
/// beside the audio file.
pub fn generate_snippet_path(stem: &str, duration: u64) -> (name: String)
    ensures
        name@ == snippet_name(stem@, duration),
{
    let mut name = String::from_str(stem);
    name.append("_preview_");
    name.append(decimal(duration as u128).as_str());
    name.append("s.wav");
    assert(name@ =~= snippet_name(stem@, duration));
    name
}

/// The number of chunks that a preview of `duration` seconds is cut into, or
/// nothing if no preview of that length is made.
pub fn chunks_for(duration: u64) -> (r: Option<u64>)
    ensures
        r == chunk_count(duration),
{
    let chunks: u64 = duration / CHUNK_SECONDS;
    if chunks == 3 || chunks == 6 || chunks == 9 {
        Some(chunks)
    } else {
        None
    }
}

/// The previews to make of an audio file whose name without extension is
/// `stem`: each one's length in seconds and its file name, shortest first.
pub fn create_preview_snippets(stem: &str) -> (previews: Vec<(u64, String)>)
    ensures
        previews@.len() == preview_durations().len(),
        forall|i: int|
            0 <= i < previews@.len() ==> (#[trigger] previews@[i]).0 == preview_durations()[i]
                && previews@[i].1@ == snippet_name(stem@, preview_durations()[i]),
{
    let mut previews: Vec<(u64, String)> = Vec::new();
    previews.push((30, generate_snippet_path(stem, 30)));
    previews.push((60, generate_snippet_path(stem, 60)));
    previews.push((90, generate_snippet_path(stem, 90)));
    previews
}

} // verus!

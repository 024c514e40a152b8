//! Media libraries: the kind of media a library holds, and which scanner is
//! started or stopped when a library row is written or removed.
use vstd::prelude::*;

verus! {

/// A library row: a folder of media of one kind.
#[derive(Debug, Clone)]
pub struct Library {
    pub id: i32,
    pub name: String,
    pub location: String,
    pub media_type: String,
}

/// The kind of media a scanner looks for.
#[derive(Debug, Clone, Copy, PartialEq, Eq, Structural)]
pub enum MediaType {
    Movie,
    TV,
}

/// The kind of media that a library's `media_type` text names: `movie` and
/// `movies` name films, any other text names TV shows.
pub open spec fn media_type_named(kind: Seq<char>) -> MediaType {
    if kind == "movie"@ || kind == "movies"@ {
        MediaType::Movie
    } else {
        MediaType::TV
    }
}

/// Whether two texts are the same.
fn same_text(a: &str, b: &str) -> (r: bool)
    ensures
        r == (a@ == b@),
{
    let x = a.to_string();
    let y = b.to_string();
    x == y
}

impl MediaType {
    /// The kind of media that a library's `media_type` text names.
    pub fn from_library_kind(kind: &str) -> (r: MediaType)
        ensures
            r == media_type_named(kind@),
            (kind@ == "movie"@ || kind@ == "movies"@) <==> r == MediaType::Movie,
            r == MediaType::Movie || r == MediaType::TV,
    {
        if same_text(kind, "movie") || same_text(kind, "movies") {
            MediaType::Movie
        } else {
            MediaType::TV
        }
    }
}

/// The number under which the scanner of library `id` runs: the id's bits
/// read as an unsigned number.
pub fn scanner_id(id: i32) -> (r: u32)
    ensures
        r == id as u32,
        id >= 0 ==> r == id,
        id < 0 ==> r == id + 0x1_0000_0000,
{
    assert(id < 0 ==> (id as u32) == id + 0x1_0000_0000) by (bit_vector);
    id as u32
}

/// What a scanner is started with.
#[derive(Debug, Clone)]
pub struct ScanRequest {
    pub library_id: u32,
    pub media_type: MediaType,
    pub location: String,
}

/// The scanner to start for a library that was just written.
pub fn scan_request_for(lib: &Library) -> (r: ScanRequest)
    ensures
        r.library_id == lib.id as u32,
        r.media_type == media_type_named(lib.media_type@),
        r.location@ == lib.location@,
{
    ScanRequest {
        library_id: scanner_id(lib.id),
        media_type: MediaType::from_library_kind(lib.media_type.as_str()),
        location: lib.location.clone(),
    }
}

/// After a library is written, the newest rows are read back newest first;
/// the row taken is the last one of them in reverse order, that is the first
/// one read, and a scanner is started for it. `None` when nothing was read.
pub fn scan_after_insert(rows: Vec<Library>) -> (r: Option<ScanRequest>)
    ensures
        rows@.len() == 0 ==> r is None,
        rows@.len() > 0 ==> (r matches Some(req) && req.library_id == rows@[0].id as u32
            && req.media_type == media_type_named(rows@[0].media_type@) && req.location@
            == rows@[0].location@),
{
    if rows.len() == 0 {
        None
    } else {
        Some(scan_request_for(&rows[0]))
    }
}

} // verus!

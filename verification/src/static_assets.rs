//! The table of embedded assets and the answers that are made from it.
//!
//! The table is filled once, before the first request, and only read after
//! that. A request never reaches the file system: a path is either a key of
//! the table or it is not there.

use vstd::prelude::*;
use crate::response::{plain, text_of, Response, ResponseView, NOT_FOUND, OK};
use crate::text::{str_eq, strip_prefix};

verus! {

/// One embedded file: its bytes, and the media type it was packaged with,
/// if any.
#[derive(Debug, PartialEq, Eq)]
pub struct EmbeddedFile {
    /// The content of the file.
    pub data: Vec<u8>,
    /// The media type declared for the file when it was packaged.
    pub mime: Option<String>,
}

/// The mathematical content of an [`EmbeddedFile`].
pub ghost struct EmbeddedFileView {
    pub data: Seq<u8>,
    pub mime: Option<Seq<char>>,
}

impl View for EmbeddedFile {
    type V = EmbeddedFileView;

    open spec fn view(&self) -> EmbeddedFileView {
        EmbeddedFileView {
            data: self.data@,
            mime: text_of(self.mime),
        }
    }
}

#[derive(Debug)]
struct Entry {
    path: String,
    file: EmbeddedFile,
}

/// The asset table: a mapping from relative path to embedded file. Paths
/// are compared character by character, case counts, no path is held
/// twice, and none begins with a slash.
#[derive(Debug)]
pub struct Asset {
    entries: Vec<Entry>,
}

/// A relative path: one that does not begin with a slash.
pub open spec fn is_relative(path: Seq<char>) -> bool {
    path.len() == 0 || path[0] != '/'
}

/// The media type that `mime_guess` gives for the extension of a path, or
/// nothing where it knows none.
pub uninterp spec fn guessed_media_type(path: Seq<char>) -> Option<Seq<char>>;

/// Calls `mime_guess::from_path` and takes the first media type of the
/// guess, as `MimeGuess::first_raw` gives it. The crate looks the path's
/// extension up in a table compiled into it and reads nothing else, so the
/// result is the same for the same path; which type belongs to which
/// extension is the crate's business and is not stated here.
#[verifier::external_body]
fn guess_media_type(path: &str) -> (guess: Option<String>)
    ensures
        text_of(guess) == guessed_media_type(path@),
{
    mime_guess::from_path(path).first_raw().map(String::from)
}

/// The content type of a file: the declared one if there is one, else the
/// one guessed from the extension, else the generic binary type.
pub open spec fn media_type(declared: Option<Seq<char>>, guess: Option<Seq<char>>) -> Seq<char> {
    match declared {
        Some(m) => m,
        None => match guess {
            Some(g) => g,
            None => "application/octet-stream"@,
        },
    }
}

/// The answer for a file that is in the table.
pub open spec fn found(file: EmbeddedFileView, guess: Option<Seq<char>>) -> ResponseView {
    ResponseView {
        status: 200,
        content_type: Some(media_type(file.mime, guess)),
        body: file.data,
    }
}

/// The answer for a path that is not in the table.
pub open spec fn not_found() -> ResponseView {
    plain(404, "File is not found"@)
}

/// The answer for the file stored under `filename`.
pub open spec fn served(
    table: Map<Seq<char>, EmbeddedFileView>,
    filename: Seq<char>,
) -> ResponseView {
    if table.contains_key(filename) {
        found(table[filename], guessed_media_type(filename))
    } else {
        not_found()
    }
}

/// The answer for a request path: the root stands for the entry-point
/// document, a path under `/static/` for the file named by what follows the
/// prefix, and nothing else is there.
pub open spec fn resolved(
    table: Map<Seq<char>, EmbeddedFileView>,
    request_path: Seq<char>,
) -> ResponseView {
    if request_path == "/"@ {
        served(table, "index.html"@)
    } else if "/static/"@.is_prefix_of(request_path) {
        served(table, request_path.skip("/static/"@.len() as int))
    } else {
        not_found()
    }
}

impl Asset {
    #[verifier::type_invariant]
    spec fn distinct_relative_paths(self) -> bool {
        &&& forall|i: int, j: int|
            0 <= i < j < self.entries@.len() ==> self.entries@[i].path@ != self.entries@[j].path@
        &&& forall|i: int| 0 <= i < self.entries@.len() ==> is_relative(self.entries@[i].path@)
    }

    spec fn position(self, path: Seq<char>) -> int {
        choose|i: int| 0 <= i < self.entries@.len() && self.entries@[i].path@ == path
    }

    /// The table as a map from path to file.
    pub closed spec fn view(&self) -> Map<Seq<char>, EmbeddedFileView> {
        Map::new(
            |path: Seq<char>|
                is_relative(path) && exists|i: int|
                    0 <= i < self.entries@.len() && self.entries@[i].path@ == path,
            |path: Seq<char>| self.entries@[self.position(path)].file@,
        )
    }

    /// Every path of the table is relative.
    pub proof fn lemma_paths_are_relative(self, path: Seq<char>)
        ensures
            self@.contains_key(path) ==> is_relative(path),
    {
    }

    /// An empty table.
    pub fn new() -> (table: Asset)
        ensures
            table@ == Map::<Seq<char>, EmbeddedFileView>::empty(),
    {
        let table = Asset { entries: Vec::new() };
        assert(table@ =~= Map::<Seq<char>, EmbeddedFileView>::empty());
        table
    }

    fn find(&self, path: &str) -> (at: Option<usize>)
        ensures
            match at {
                Some(i) => i < self.entries@.len() && self.entries@[i as int].path@ == path@,
                None => forall|i: int|
                    0 <= i < self.entries@.len() ==> self.entries@[i].path@ != path@,
            },
    {
        let mut i: usize = 0;
        while i < self.entries.len()
            invariant
                0 <= i <= self.entries@.len(),
                forall|j: int| 0 <= j < i ==> self.entries@[j].path@ != path@,
            decreases self.entries@.len() - i,
        {
            if str_eq(self.entries[i].path.as_str(), path) {
                return Some(i);
            }
            i = i + 1;
        }
        None
    }

    /// Stores `file` under `path`, in place of what was stored there. A
    /// path that begins with a slash is not relative: it is turned down,
    /// and the table stays as it is.
    pub fn insert(&mut self, path: String, file: EmbeddedFile) -> (stored: bool)
        ensures
            stored == is_relative(path@),
            final(self)@ == if stored {
                old(self)@.insert(path@, file@)
            } else {
                old(self)@
            },
    {
        proof {
            use_type_invariant(&*self);
        }
        let absolute = strip_prefix(path.as_str(), "/").is_some();
        proof {
            reveal_strlit("/");
            if path@.len() > 0 && path@[0] == '/' {
                assert(path@.subrange(0, 1) =~= "/"@);
            }
            if "/"@.is_prefix_of(path@) {
                assert(path@[0] == path@.subrange(0, 1)[0]);
            }
        }
        if absolute {
            return false;
        }
        let ghost before = *self;
        let ghost key = path@;
        let ghost value = file@;
        let at = self.find(path.as_str());
        let mut entries: Vec<Entry> = Vec::new();
        core::mem::swap(&mut self.entries, &mut entries);
        match at {
            Some(i) => {
                entries.set(i, Entry { path, file });
            },
            None => {
                entries.push(Entry { path, file });
            },
        }
        self.entries = entries;
        proof {
            let after = *self;
            let n = before.entries@.len() as int;
            let at_key: int = match at {
                Some(i) => i as int,
                None => n,
            };
            assert(after.entries@[at_key].path@ == key);
            assert(after.entries@[at_key].file@ == value);
            assert forall|j: int| 0 <= j < n && j != at_key implies after.entries@[j]
                == before.entries@[j] by {}
            assert forall|k: Seq<char>| #[trigger]
                after@.contains_key(k) == before@.insert(key, value).contains_key(k) by {
                if after@.contains_key(k) && k != key {
                    let j = after.position(k);
                    assert(before.entries@[j].path@ == k);
                }
                if before@.contains_key(k) && k != key {
                    let j = before.position(k);
                    assert(after.entries@[j].path@ == k);
                }
            }
            assert forall|k: Seq<char>| #[trigger] after@.contains_key(k) implies after@[k]
                == before@.insert(key, value)[k] by {
                let j = after.position(k);
                if k != key {
                    assert(before.entries@[j].path@ == k);
                    let j0 = before.position(k);
                    assert(after.entries@[j0].path@ == k);
                } else {
                    assert(j == at_key);
                }
            }
            assert(after@ =~= before@.insert(key, value));
        }
        true
    }

    /// Looks `path` up: the file stored under exactly that path, if any.
    pub fn get(&self, path: &str) -> (file: Option<&EmbeddedFile>)
        ensures
            file is Some <==> self@.contains_key(path@),
            file matches Some(f) ==> f@ == self@[path@],
    {
        proof {
            use_type_invariant(self);
        }
        match self.find(path) {
            Some(i) => {
                proof {
                    let j = self.position(path@);
                    assert(0 <= j < self.entries@.len() && self.entries@[j].path@ == path@);
                    assert(j == i);
                }
                Some(&self.entries[i].file)
            },
            None => None,
        }
    }
}

/// Answers with a file of the table. `guess` is the media type guessed for
/// the path under which the file is stored.
pub fn respond(file: &EmbeddedFile, guess: Option<String>) -> (response: Response)
    ensures
        response@ == found(file@, text_of(guess)),
{
    let content_type = match &file.mime {
        Some(declared) => declared.clone(),
        None => match guess {
            Some(guessed) => guessed,
            None => "application/octet-stream".to_owned(),
        },
    };
    Response { status: OK, content_type: Some(content_type), body: file.data.clone() }
}

fn file_not_found() -> (response: Response)
    ensures
        response@ == not_found(),
{
    Response::plain(NOT_FOUND, "File is not found")
}

/// Serves the file stored under `filename`: its bytes with its content
/// type, or 404 with the body `File is not found`.
pub fn static_files(assets: &Asset, filename: &str) -> (response: Response)
    ensures
        response@ == served(assets@, filename@),
{
    match assets.get(filename) {
        Some(file) => respond(file, guess_media_type(filename)),
        None => file_not_found(),
    }
}

/// Serves the entry-point document, `index.html`.
pub fn index(assets: &Asset) -> (response: Response)
    ensures
        response@ == served(assets@, "index.html"@),
{
    static_files(assets, "index.html")
}

/// Resolves a request path against the table.
pub fn resolve(assets: &Asset, request_path: &str) -> (response: Response)
    ensures
        response@ == resolved(assets@, request_path@),
{
    if str_eq(request_path, "/") {
        index(assets)
    } else {
        match strip_prefix(request_path, "/static/") {
            Some(filename) => static_files(assets, filename),
            None => file_not_found(),
        }
    }
}

/// A path that is in the table is answered with status 200, exactly the
/// stored bytes, and the declared media type or, without one, the type
/// guessed from the path or the generic binary type. A path that is not in
/// the table is answered with 404 and the body `File is not found`.
pub proof fn lemma_served_exactly(table: Map<Seq<char>, EmbeddedFileView>, filename: Seq<char>)
    ensures
        table.contains_key(filename) ==> {
            &&& served(table, filename).status == 200
            &&& served(table, filename).body == table[filename].data
            &&& served(table, filename).content_type == Some(
                media_type(table[filename].mime, guessed_media_type(filename)),
            )
        },
        table.contains_key(filename) && table[filename].mime is Some ==> served(
            table,
            filename,
        ).content_type == table[filename].mime,
        !table.contains_key(filename) ==> served(table, filename) == plain(
            404,
            "File is not found"@,
        ),
{
}

/// Nothing is served under a path that begins with a slash, whatever the
/// table holds.
pub proof fn lemma_absolute_path_is_not_found(table: Asset, filename: Seq<char>)
    requires
        !is_relative(filename),
    ensures
        served(table@, filename) == not_found(),
{
    table.lemma_paths_are_relative(filename);
}

/// A request for `/static/` followed by `filename` is answered as the file
/// stored under `filename` is.
pub proof fn lemma_static_prefix(table: Map<Seq<char>, EmbeddedFileView>, filename: Seq<char>)
    ensures
        resolved(table, "/static/"@ + filename) == served(table, filename),
{
    reveal_strlit("/static/");
    reveal_strlit("/");
    let request_path = "/static/"@ + filename;
    assert(request_path.len() >= 8);
    assert("/static/"@.is_prefix_of(request_path));
    assert(request_path.skip(8) =~= filename);
}

/// The root path stands for the entry-point document: a request for `/` is
/// answered as a request for `/static/index.html` is.
pub proof fn lemma_root_is_entry_point(table: Map<Seq<char>, EmbeddedFileView>)
    ensures
        resolved(table, "/"@) == resolved(table, "/static/index.html"@),
{
    reveal_strlit("/static/");
    reveal_strlit("/static/index.html");
    reveal_strlit("index.html");
    assert("/static/index.html"@ =~= "/static/"@ + "index.html"@);
    lemma_static_prefix(table, "index.html"@);
}

} // verus!

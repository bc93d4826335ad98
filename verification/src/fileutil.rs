use vstd::prelude::*;
use vstd::string::StrSliceExecFns;
use vstd::string::StringExecFns;

use crate::error::APIRequestError;
use crate::textutil::str_eq;

verus! {

/// The suffix of `s` after its last `'/'`; all of `s` when it has none.
pub open spec fn after_last_slash(s: Seq<char>) -> Seq<char>
    decreases s.len(),
{
    if s.len() == 0 {
        s
    } else if s.last() == '/' {
        Seq::<char>::empty()
    } else {
        after_last_slash(s.drop_last()).push(s.last())
    }
}

proof fn lemma_after_last_slash_at(s: Seq<char>, c: int)
    requires
        0 <= c <= s.len(),
        forall|k: int| c <= k < s.len() ==> s[k] != '/',
        c > 0 ==> s[c - 1] == '/',
    ensures
        after_last_slash(s) == s.skip(c),
    decreases s.len(),
{
    if s.len() == 0 {
        assert(s.skip(0) =~= s);
    } else if c == s.len() {
        if c > 0 {
            assert(s.last() == '/');
        }
        assert(s.skip(c) =~= Seq::<char>::empty());
    } else {
        assert(s.last() != '/');
        let t = s.drop_last();
        assert forall|k: int| c <= k < t.len() implies t[k] != '/' by {
            assert(t[k] == s[k]);
        }
        if c > 0 {
            assert(t[c - 1] == s[c - 1]);
        }
        lemma_after_last_slash_at(t, c);
        assert(t.skip(c).push(s.last()) =~= s.skip(c));
    }
}

/// Finds the index just after the last `'/'` of `path`, or zero when
/// there is none.
fn find_cut(path: &str) -> (c: usize)
    ensures
        c <= path@.len(),
        forall|k: int| c <= k < path@.len() ==> path@[k] != '/',
        c > 0 ==> path@[c - 1] == '/',
{
    let n = path.unicode_len();
    let mut i: usize = n;
    while i > 0
        invariant
            0 <= i <= n,
            n == path@.len(),
            forall|k: int| i <= k < n ==> path@[k] != '/',
        ensures
            0 <= i <= n,
            forall|k: int| i <= k < n ==> path@[k] != '/',
            i > 0 ==> path@[i - 1] == '/',
        decreases i,
    {
        if path.get_char(i - 1) == '/' {
            break ;
        }
        i -= 1;
    }
    i
}

/// The last path component of `path`: everything after the final
/// separator.
pub fn base_name(path: &str) -> (r: String)
    ensures
        r@ == after_last_slash(path@),
{
    let c = find_cut(path);
    let n = path.unicode_len();
    proof {
        lemma_after_last_slash_at(path@, c as int);
    }
    path.substring_char(c, n).to_owned()
}

/// The file name an upload is sent under: the explicit name when one is
/// given, else the path's last component, else the caller's fallback
/// for an empty component.
pub open spec fn default_name_view(
    file_name: Option<String>,
    path: Seq<char>,
    fallback: Seq<char>,
) -> Seq<char> {
    match file_name {
        Some(n) => n@,
        None => if after_last_slash(path).len() > 0 {
            after_last_slash(path)
        } else {
            fallback
        },
    }
}

/// Picks the file name an upload is sent under.
pub fn default_file_name(file_name: Option<String>, path: &str, fallback: &str) -> (r: String)
    ensures
        r@ == default_name_view(file_name, path@, fallback@),
{
    match file_name {
        Some(n) => n,
        None => {
            let base = base_name(path);
            if base.as_str().unicode_len() > 0 {
                base
            } else {
                String::from_str(fallback)
            }
        },
    }
}

/// Where the bytes of an outgoing file come from: a local or remote
/// path still to be uploaded, or a file already known to the server.
pub enum FileSource {
    Upload { path: String, name: String },
    Existing { file_id: String },
}

/// Decides how a media-send call obtains its file: a given path wins
/// and is uploaded under the chosen name, else a given file identifier
/// is reused, else the call is rejected.
pub fn resolve_file_source(
    path: Option<String>,
    file_id: Option<String>,
    file_name: Option<String>,
    fallback: &str,
) -> (r: Result<FileSource, APIRequestError>)
    ensures
        match path {
            Some(p) => r matches Ok(FileSource::Upload { path: rp, name }) && rp == p && name@
                == default_name_view(file_name, p@, fallback@),
            None => match file_id {
                Some(f) => r matches Ok(FileSource::Existing { file_id: rf }) && rf == f,
                None => r matches Err(e) && e matches APIRequestError::RequestFailed(s) && s@
                    == "Either path or file_id must be provided"@,
            },
        },
{
    match path {
        Some(p) => {
            let name = default_file_name(file_name, p.as_str(), fallback);
            Ok(FileSource::Upload { path: p, name })
        },
        None => match file_id {
            Some(f) => Ok(FileSource::Existing { file_id: f }),
            None => Err(
                APIRequestError::RequestFailed(
                    String::from_str("Either path or file_id must be provided"),
                ),
            ),
        },
    }
}

/// Whether an upload path names a remote resource rather than a local
/// file: it starts with "http".
pub open spec fn starts_with_http(s: Seq<char>) -> bool {
    s.len() >= 4 && s.subrange(0, 4) == "http"@
}

/// Decides whether an upload path is fetched over the network or read
/// from local storage.
pub fn is_http_source(path: &str) -> (r: bool)
    ensures
        r == starts_with_http(path@),
{
    proof {
        reveal_strlit("http");
    }
    if path.unicode_len() < 4 {
        return false;
    }
    let r = path.get_char(0) == 'h' && path.get_char(1) == 't' && path.get_char(2) == 't'
        && path.get_char(3) == 'p';
    proof {
        if r {
            assert(path@.subrange(0, 4) =~= "http"@);
        } else {
            assert(path@.subrange(0, 4)[0] == path@[0]);
            assert(path@.subrange(0, 4)[1] == path@[1]);
            assert(path@.subrange(0, 4)[2] == path@[2]);
            assert(path@.subrange(0, 4)[3] == path@[3]);
        }
    }
    r
}

/// Whether `s` names a kind of media the upload endpoint accepts.
pub open spec fn is_media_type(s: Seq<char>) -> bool {
    s == "File"@ || s == "Image"@ || s == "Voice"@ || s == "Music"@ || s == "Gif"@
}

/// Checks a media kind before an upload slot is requested for it, and
/// rejects every kind the endpoint does not accept.
pub fn validate_media_type(media_type: &str) -> (r: Result<(), APIRequestError>)
    ensures
        r is Ok <==> is_media_type(media_type@),
        r matches Err(e) ==> e matches APIRequestError::RequestFailed(s) && s@
            == "Invalid media type. Must be one of [\"File\", \"Image\", \"Voice\", \"Music\", \"Gif\"]"@,
{
    if str_eq(media_type, "File") || str_eq(media_type, "Image") || str_eq(media_type, "Voice")
        || str_eq(media_type, "Music") || str_eq(media_type, "Gif") {
        Ok(())
    } else {
        Err(
            APIRequestError::RequestFailed(
                String::from_str(
                    "Invalid media type. Must be one of [\"File\", \"Image\", \"Voice\", \"Music\", \"Gif\"]",
                ),
            ),
        )
    }
}

} // verus!

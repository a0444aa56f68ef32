//! Test fixtures: the file names under which recorded API responses are
//! stored and looked up.

use vstd::prelude::*;
use crate::text::{push_char, push_str, to_lowercase, to_owned_string, unicode_lowercase};

verus! {

/// Whether `c` is alphabetic or numeric in the Unicode sense, as
/// `char::is_alphanumeric` decides it.
pub uninterp spec fn unicode_alphanumeric(c: char) -> bool;

/// `char::is_alphanumeric`. The result is named by `unicode_alphanumeric`, a
/// function of the character alone (the Unicode Alphabetic and Numeric
/// properties), which is not restated here.
#[verifier::external_body]
fn is_alphanumeric(c: char) -> (r: bool)
    ensures
        r == unicode_alphanumeric(c),
{
    c.is_alphanumeric()
}

/// A character kept in a file name: alphanumerics, `-` and `_`.
pub open spec fn filename_char_kept(c: char) -> bool {
    unicode_alphanumeric(c) || c == '-' || c == '_'
}

/// `s` with every character that is not kept replaced by `_`.
pub open spec fn safe_filename_of(s: Seq<char>) -> Seq<char> {
    s.map_values(|c: char| if filename_char_kept(c) { c } else { '_' })
}

/// The search fixture's file name for a keyword and a region.
pub open spec fn search_fixture_name(keyword: Seq<char>, region: Seq<char>) -> Seq<char> {
    "search_"@ + safe_filename_of(keyword) + "_"@ + unicode_lowercase(region) + ".json"@
}

/// The comments fixture's file name for a video.
pub open spec fn comments_fixture_name(aweme_id: Seq<char>) -> Seq<char> {
    "comments_"@ + aweme_id + ".json"@
}

/// The user-videos fixture's file name for a user.
pub open spec fn user_videos_fixture_name(unique_id: Seq<char>) -> Seq<char> {
    "user_videos_"@ + unique_id + ".json"@
}

/// `keyword` made safe for a file name.
fn safe_filename(keyword: &str) -> (r: String)
    ensures
        r@ == safe_filename_of(keyword@),
{
    let mut r = String::new();
    for c in it: keyword.chars()
        invariant
            it.seq() == keyword@,
            r@ == safe_filename_of(keyword@.take(it.index() as int)),
    {
        let keep = is_alphanumeric(c) || c == '-' || c == '_';
        let out = if keep {
            c
        } else {
            '_'
        };
        proof {
            assert(keyword@.take(it.index() + 1) == keyword@.take(it.index() as int).push(c));
            assert(safe_filename_of(keyword@.take(it.index() + 1)) == safe_filename_of(
                keyword@.take(it.index() as int),
            ).push(out));
        }
        push_char(&mut r, out);
    }
    proof {
        assert(keyword@.take(keyword@.len() as int) == keyword@);
    }
    r
}

fn search_name(keyword: &str, region: &str) -> (r: String)
    ensures
        r@ == search_fixture_name(keyword@, region@),
{
    let safe = safe_filename(keyword);
    let lower = to_lowercase(region);
    let mut r = to_owned_string("search_");
    push_str(&mut r, safe.as_str());
    push_str(&mut r, "_");
    push_str(&mut r, lower.as_str());
    push_str(&mut r, ".json");
    r
}

fn comments_name(aweme_id: &str) -> (r: String)
    ensures
        r@ == comments_fixture_name(aweme_id@),
{
    let mut r = to_owned_string("comments_");
    push_str(&mut r, aweme_id);
    push_str(&mut r, ".json");
    r
}

fn user_videos_name(unique_id: &str) -> (r: String)
    ensures
        r@ == user_videos_fixture_name(unique_id@),
{
    let mut r = to_owned_string("user_videos_");
    push_str(&mut r, unique_id);
    push_str(&mut r, ".json");
    r
}

/// Looks fixtures up in a directory.
pub struct FixtureLoader {
    base_dir: String,
}

impl FixtureLoader {
    /// The fixture directory.
    pub closed spec fn base_dir_view(&self) -> Seq<char> {
        self.base_dir@
    }

    /// A loader for the fixtures in `base_dir`.
    pub fn new(base_dir: &str) -> (r: FixtureLoader)
        ensures
            r.base_dir_view() == base_dir@,
    {
        FixtureLoader { base_dir: to_owned_string(base_dir) }
    }

    /// A loader for the fixtures in `dir`.
    pub fn with_dir(dir: &str) -> (r: FixtureLoader)
        ensures
            r.base_dir_view() == dir@,
    {
        Self::new(dir)
    }

    /// A loader for the TikTok fixtures of the project in `manifest_dir`
    /// (`"."` when unknown).
    pub fn for_manifest_dir(manifest_dir: Option<&str>) -> (r: FixtureLoader)
        ensures
            r.base_dir_view() == match manifest_dir {
                Some(d) => d@,
                None => "."@,
            } + "/tests/fixtures/tiktok"@,
    {
        let mut dir = match manifest_dir {
            Some(d) => to_owned_string(d),
            None => to_owned_string("."),
        };
        push_str(&mut dir, "/tests/fixtures/tiktok");
        FixtureLoader { base_dir: dir }
    }

    /// The fixture directory.
    pub fn base_dir(&self) -> (r: &str)
        ensures
            r@ == self.base_dir_view(),
    {
        self.base_dir.as_str()
    }

    /// `keyword` with every character other than an alphanumeric, `-` or `_`
    /// replaced by `_`.
    pub fn safe_filename(keyword: &str) -> (r: String)
        ensures
            r@ == safe_filename_of(keyword@),
    {
        safe_filename(keyword)
    }

    /// The file name of the search fixture for `keyword` in `region`.
    pub fn search_fixture_filename(keyword: &str, region: &str) -> (r: String)
        ensures
            r@ == search_fixture_name(keyword@, region@),
    {
        search_name(keyword, region)
    }

    /// The file name of the comments fixture for a video.
    pub fn comments_fixture_filename(aweme_id: &str) -> (r: String)
        ensures
            r@ == comments_fixture_name(aweme_id@),
    {
        comments_name(aweme_id)
    }

    /// The file name of the user-videos fixture for a user.
    pub fn user_videos_fixture_filename(unique_id: &str) -> (r: String)
        ensures
            r@ == user_videos_fixture_name(unique_id@),
    {
        user_videos_name(unique_id)
    }

    /// Whether a directory entry is a fixture file.
    pub fn is_fixture_file(name: &str) -> (r: bool)
        ensures
            r == (name@.len() >= 5 && name@.skip(name@.len() - 5) == ".json"@),
    {
        let v = crate::text::chars_of(name);
        let n = v.len();
        if n < 5 {
            return false;
        }
        let tail = crate::text::string_from_chars(&v, n - 5, n);
        proof {
            assert(v@.subrange(n - 5, n as int) == name@.skip(n - 5));
        }
        crate::text::str_eq(tail.as_str(), ".json")
    }
}

/// Where generated fixtures go unless another directory is given.
pub const DEFAULT_FIXTURE_DIR: &'static str = "tests/fixtures/tiktok";

/// Writes fixtures into a directory; the recording itself is done by the
/// caller that talks to the API and the file system.
pub struct FixtureGenerator {
    output_dir: String,
}

impl FixtureGenerator {
    /// The output directory.
    pub closed spec fn output_dir_view(&self) -> Seq<char> {
        self.output_dir@
    }

    /// A generator writing into `output_dir`.
    pub fn new(output_dir: &str) -> (r: FixtureGenerator)
        ensures
            r.output_dir_view() == output_dir@,
    {
        FixtureGenerator { output_dir: to_owned_string(output_dir) }
    }

    /// A generator writing into the default fixture directory.
    pub fn with_default_dir() -> (r: FixtureGenerator)
        ensures
            r.output_dir_view() == DEFAULT_FIXTURE_DIR@,
    {
        Self::new(DEFAULT_FIXTURE_DIR)
    }

    /// The output directory.
    pub fn output_dir(&self) -> (r: &str)
        ensures
            r@ == self.output_dir_view(),
    {
        self.output_dir.as_str()
    }

    /// `keyword` made safe for a file name (as the loader does).
    pub fn safe_filename(keyword: &str) -> (r: String)
        ensures
            r@ == safe_filename_of(keyword@),
    {
        safe_filename(keyword)
    }

    /// The file name of the search fixture for `keyword` in `region`.
    pub fn search_fixture_filename(keyword: &str, region: &str) -> (r: String)
        ensures
            r@ == search_fixture_name(keyword@, region@),
    {
        search_name(keyword, region)
    }

    /// The file name of the comments fixture for a video.
    pub fn comments_fixture_filename(aweme_id: &str) -> (r: String)
        ensures
            r@ == comments_fixture_name(aweme_id@),
    {
        comments_name(aweme_id)
    }

    /// The file name of the user-videos fixture for a user.
    pub fn user_videos_fixture_filename(unique_id: &str) -> (r: String)
        ensures
            r@ == user_videos_fixture_name(unique_id@),
    {
        user_videos_name(unique_id)
    }
}

/// Making a keyword safe keeps its length, keeps every allowed character in
/// place and replaces every other one.
pub proof fn lemma_safe_filename_shape(keyword: Seq<char>)
    ensures
        safe_filename_of(keyword).len() == keyword.len(),
        forall|i: int|
            0 <= i < keyword.len() ==> (#[trigger] safe_filename_of(keyword)[i] == keyword[i]
                <==> filename_char_kept(keyword[i])),
        forall|i: int|
            0 <= i < keyword.len() && !filename_char_kept(keyword[i]) ==> #[trigger] safe_filename_of(
                keyword,
            )[i] == '_',
{
}

} // verus!

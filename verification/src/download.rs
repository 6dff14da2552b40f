//! The shader catalog as far as it is a matter of texts: which identifier
//! an address names, what is sent, and what the answer holds. Sending and
//! receiving are the caller's.

use vstd::prelude::*;
use crate::error::{InvalidShaderIdError, SaveShaderError, ShaderError};
use crate::text::{
    chars_of,
    find_last,
    lowercase,
    occurs_at,
    replace_blanks,
    same_text,
    starts_with,
    text_of,
    underscored,
};

verus! {

/// Where the catalog takes requests.
pub const REQUEST_URL: &'static str = "https://www.shadertoy.com/shadertoy/";

/// What a request names as the page it comes from.
pub const REFERER: &'static str = "https://www.shadertoy.com/";

/// The name of the form field that holds the query.
pub const FORM_FIELD: &'static str = "s";

/// What the catalog answers when it knows no shader of the identifier.
pub const EMPTY_ANSWER: &'static str = "[]";

/// What stands before the identifier in the address of a shader's page.
pub const VIEW_PREFIX: &'static str = "view/";

/// Whether a text is the address of a shader's page in the catalog, with
/// or without the scheme.
pub open spec fn is_catalog_url(id: Seq<char>) -> bool {
    ||| occurs_at(id, "https://www.shadertoy.com/view/"@, 0)
    ||| occurs_at(id, "http://www.shadertoy.com/view/"@, 0)
    ||| occurs_at(id, "www.shadertoy.com/view/"@, 0)
}

/// Whether `id` is the identifier that `given` names: for the address of a
/// shader's page, what follows the last `view/` in it; for any other text,
/// the text itself.
pub open spec fn is_shader_id_of(given: Seq<char>, id: Seq<char>) -> bool {
    if is_catalog_url(given) {
        exists|at: int|
            {
                &&& #[trigger] occurs_at(given, VIEW_PREFIX@, at)
                &&& forall|later: int| later > at ==> !occurs_at(given, VIEW_PREFIX@, later)
                &&& id == given.subrange(at + VIEW_PREFIX@.len(), given.len() as int)
            }
    } else {
        id == given
    }
}

/// The address of a shader's page holds `view/`.
proof fn lemma_catalog_url_has_view(id: Seq<char>)
    requires
        is_catalog_url(id),
    ensures
        exists|at: int| occurs_at(id, VIEW_PREFIX@, at),
{
    reveal_strlit("https://www.shadertoy.com/view/");
    reveal_strlit("http://www.shadertoy.com/view/");
    reveal_strlit("www.shadertoy.com/view/");
    reveal_strlit("view/");
    let view = VIEW_PREFIX@;
    if occurs_at(id, "https://www.shadertoy.com/view/"@, 0) {
        let head = id.subrange(0, 31);
        assert(forall|k: int| 0 <= k < 5 ==> id.subrange(26, 31)[k] == head[26 + k]);
        assert(id.subrange(26, 31) =~= view);
        assert(occurs_at(id, view, 26));
    } else if occurs_at(id, "http://www.shadertoy.com/view/"@, 0) {
        let head = id.subrange(0, 30);
        assert(forall|k: int| 0 <= k < 5 ==> id.subrange(25, 30)[k] == head[25 + k]);
        assert(id.subrange(25, 30) =~= view);
        assert(occurs_at(id, view, 25));
    } else {
        let head = id.subrange(0, 23);
        assert(forall|k: int| 0 <= k < 5 ==> id.subrange(18, 23)[k] == head[18 + k]);
        assert(id.subrange(18, 23) =~= view);
        assert(occurs_at(id, view, 18));
    }
}

/// The identifier that a text names: the text itself, or, where it is the
/// address of a shader's page, the identifier at the end of the address.
pub fn shader_id(given: &str) -> (id: String)
    ensures
        is_shader_id_of(given@, id@),
{
    let chars = chars_of(given);
    let is_url = starts_with(&chars, &chars_of("https://www.shadertoy.com/view/")) || starts_with(
        &chars,
        &chars_of("http://www.shadertoy.com/view/"),
    ) || starts_with(&chars, &chars_of("www.shadertoy.com/view/"));
    if !is_url {
        return String::from_str(given);
    }
    let view = chars_of(VIEW_PREFIX);
    proof {
        lemma_catalog_url_has_view(given@);
    }
    match find_last(&chars, &view) {
        Some(at) => {
            assert(occurs_at(given@, VIEW_PREFIX@, at as int));
            let end: usize = chars.len();
            text_of(&chars, at + view.len(), end)
        },
        None => String::from_str(given),
    }
}

/// The query that asks the catalog for the shader of an identifier.
pub open spec fn shaders_query(id: Seq<char>) -> Seq<char> {
    "{\"shaders\": [\""@ + id + "\"]}"@
}

/// Writes the query for an identifier. It goes out as the form field
/// `FORM_FIELD` of a POST request to `REQUEST_URL`.
pub fn request_form(id: &str) -> (query: String)
    ensures
        query@ == shaders_query(id@),
{
    String::from_str("{\"shaders\": [\"").concat(id).concat("\"]}")
}

/// Takes the catalog's answer to the query for `id`: the answer itself,
/// unless it says that there is no such shader.
pub fn get_json_string(id: &str, answer: String) -> (json: Result<String, ShaderError>)
    ensures
        answer@ == EMPTY_ANSWER@ ==> (json matches Err(ShaderError::InvalidShaderId(e)) && e.id@
            == id@),
        answer@ != EMPTY_ANSWER@ ==> json == Ok::<String, ShaderError>(answer),
{
    if same_text(answer.as_str(), EMPTY_ANSWER) {
        Err(ShaderError::InvalidShaderId(InvalidShaderIdError::new(id)))
    } else {
        Ok(answer)
    }
}

/// The failure of saving the shader `name`, as a result of any type.
pub fn return_save_shader_error<E>(name: &str, err: std::io::Error) -> (failed: Result<
    E,
    ShaderError,
>)
    ensures
        failed matches Err(ShaderError::SaveShader(e)) && e.shadername@ == name@ && e.error == err,
{
    Err(ShaderError::SaveShader(SaveShaderError::new(name, err)))
}

/// `serde_json::Value`. Verified code never looks inside one: it is
/// turned into a `Json` first.
#[verifier::external_type_specification]
#[verifier::external_body]
pub struct ExJsonValue(serde_json::Value);

/// A JSON value.
#[derive(Debug, PartialEq, Eq)]
pub enum Json {
    Null,
    Bool(bool),
    /// A number, as it is written.
    Number(String),
    String(String),
    Array(Vec<Json>),
    /// The members of an object, each with its key.
    Object(Vec<(String, Json)>),
}

/// The JSON value that a text writes, as `serde_json` reads it; nothing
/// for a text that is not JSON.
pub uninterp spec fn json_of_text(text: Seq<char>) -> Option<Json>;

/// What a value of `serde_json` holds.
pub uninterp spec fn json_of_value(value: serde_json::Value) -> Json;

/// Reads a text with `serde_json::from_str`. All that is claimed is that
/// what the value read holds is a function of the text alone, and so is
/// whether the text is refused; what JSON is, is left to `serde_json`.
#[verifier::external_body]
fn parse_json(text: &str) -> (parsed: Result<serde_json::Value, serde_json::Error>)
    ensures
        parsed matches Ok(value) ==> json_of_text(text@) == Some(json_of_value(value)),
        parsed is Err ==> json_of_text(text@) is None,
{
    serde_json::from_str::<serde_json::Value>(text)
}

/// Hands out what a value of `serde_json` holds, variant for variant: a
/// number becomes the text that `serde_json` prints for it, and an object
/// becomes its members in the order in which its map yields them.
#[verifier::external_body]
fn json_from_value(value: serde_json::Value) -> (json: Json)
    ensures
        json == json_of_value(value),
{
    match value {
        serde_json::Value::Null => Json::Null,
        serde_json::Value::Bool(b) => Json::Bool(b),
        serde_json::Value::Number(n) => Json::Number(n.to_string()),
        serde_json::Value::String(s) => Json::String(s),
        serde_json::Value::Array(a) => Json::Array(a.into_iter().map(json_from_value).collect()),
        serde_json::Value::Object(m) => Json::Object(
            m.into_iter().map(|(k, v)| (k, json_from_value(v))).collect(),
        ),
    }
}

/// The first of the members that has the given key.
pub open spec fn first_with_key(members: Seq<(String, Json)>, key: Seq<char>) -> Option<Json>
    decreases members.len(),
{
    if members.len() == 0 {
        None
    } else if members[0].0@ == key {
        Some(members[0].1)
    } else {
        first_with_key(members.drop_first(), key)
    }
}

impl Json {
    /// The element at the place `i` of an array.
    pub open spec fn spec_at(self, i: int) -> Option<Json> {
        match self {
            Json::Array(items) => if 0 <= i < items@.len() {
                Some(items@[i])
            } else {
                None
            },
            _ => None,
        }
    }

    /// The member of an object that has the given key.
    pub open spec fn spec_get(self, key: Seq<char>) -> Option<Json> {
        match self {
            Json::Object(members) => first_with_key(members@, key),
            _ => None,
        }
    }

    /// The text of a string.
    pub open spec fn spec_text(self) -> Option<Seq<char>> {
        match self {
            Json::String(text) => Some(text@),
            _ => None,
        }
    }

    /// The elements of an array.
    pub open spec fn spec_items(self) -> Option<Seq<Json>> {
        match self {
            Json::Array(items) => Some(items@),
            _ => None,
        }
    }

    /// The element at the place `i`, if this is an array that has one.
    pub fn at(&self, i: usize) -> (item: Option<&Json>)
        ensures
            match item {
                Some(item) => self.spec_at(i as int) == Some(*item),
                None => self.spec_at(i as int) is None,
            },
    {
        match self {
            Json::Array(items) => if i < items.len() {
                Some(&items[i])
            } else {
                None
            },
            _ => None,
        }
    }

    /// The member with the given key, if this is an object that has one.
    pub fn get(&self, key: &str) -> (member: Option<&Json>)
        ensures
            match member {
                Some(member) => self.spec_get(key@) == Some(*member),
                None => self.spec_get(key@) is None,
            },
    {
        match self {
            Json::Object(members) => {
                let mut i: usize = 0;
                assert(members@.skip(0) == members@);
                while i < members.len()
                    invariant
                        i <= members.len(),
                        self == Json::Object(*members),
                        first_with_key(members@, key@) == first_with_key(
                            members@.skip(i as int),
                            key@,
                        ),
                    decreases members.len() - i,
                {
                    let ghost rest = members@.skip(i as int);
                    assert(rest[0] == members@[i as int]);
                    assert(rest.drop_first() == members@.skip(i + 1));
                    if same_text(members[i].0.as_str(), key) {
                        return Some(&members[i].1);
                    }
                    i = i + 1;
                }
                None
            },
            _ => None,
        }
    }

    /// The text, if this is a string.
    pub fn text(&self) -> (text: Option<&str>)
        ensures
            match text {
                Some(text) => self.spec_text() == Some(text@),
                None => self.spec_text() is None,
            },
    {
        match self {
            Json::String(text) => Some(text.as_str()),
            _ => None,
        }
    }

    /// The elements, if this is an array.
    pub fn items(&self) -> (items: Option<&Vec<Json>>)
        ensures
            match items {
                Some(items) => self.spec_items() == Some(items@),
                None => self.spec_items() is None,
            },
    {
        match self {
            Json::Array(items) => Some(items),
            _ => None,
        }
    }
}

/// The member with the given key of a value that may be missing.
pub open spec fn member_of(json: Option<Json>, key: Seq<char>) -> Option<Json> {
    match json {
        Some(json) => json.spec_get(key),
        None => None,
    }
}

/// The text of a value that may be missing.
pub open spec fn text_of_value(json: Option<Json>) -> Option<Seq<char>> {
    match json {
        Some(json) => json.spec_text(),
        None => None,
    }
}

/// The name of the shader that an answer of the catalog describes: the
/// answer is an array, and the name stands in its first element under
/// `info`, `name`.
pub open spec fn shader_name(answer: Json) -> Option<Seq<char>> {
    text_of_value(member_of(member_of(answer.spec_at(0), "info"@), "name"@))
}

/// The render passes of the shader that an answer describes: the array
/// under `renderpass` in the answer's first element.
pub open spec fn render_passes(answer: Json) -> Option<Seq<Json>> {
    match member_of(answer.spec_at(0), "renderpass"@) {
        Some(passes) => passes.spec_items(),
        None => None,
    }
}

/// Whether a render pass is the one that draws the image.
pub open spec fn is_image_pass(pass: Json) -> bool {
    text_of_value(pass.spec_get("name"@)) == Some("Image"@)
}

/// The code of a render pass.
pub open spec fn pass_code(pass: Json) -> Option<Seq<char>> {
    text_of_value(pass.spec_get("code"@))
}

/// The code of the image pass among several passes: that of the last
/// image pass; no code at all where there is no image pass. An image pass
/// without code leaves the whole without a result.
pub open spec fn image_code(passes: Seq<Json>) -> Option<Seq<char>>
    decreases passes.len(),
{
    if passes.len() == 0 {
        Some(Seq::empty())
    } else {
        match image_code(passes.drop_last()) {
            Some(earlier) => if is_image_pass(passes.last()) {
                pass_code(passes.last())
            } else {
                Some(earlier)
            },
            None => None,
        }
    }
}

/// The code to show for a shader with the given passes: with one pass,
/// the code of that pass; with several, the code of the image pass.
pub open spec fn shown_code(passes: Seq<Json>) -> Option<Seq<char>> {
    if passes.len() > 1 {
        image_code(passes)
    } else if passes.len() == 1 {
        pass_code(passes[0])
    } else {
        None
    }
}

/// The name of the file that a shader of the given name is saved to.
pub open spec fn file_name_for(name: Seq<char>) -> Seq<char> {
    lowercase(underscored(name) + ".frag"@)
}

/// The file name and the code that an answer of the catalog holds, where
/// it holds a shader's name and code in the places named above.
pub open spec fn extracted(answer: Json) -> Option<(Seq<char>, Seq<char>)> {
    match (shader_name(answer), render_passes(answer)) {
        (Some(name), Some(passes)) => match shown_code(passes) {
            Some(code) => Some((file_name_for(name), code)),
            None => None,
        },
        _ => None,
    }
}

/// Whether `outcome` is what `extracted` gives for the answer, with
/// a malformed response standing for no result.
pub open spec fn is_extracted_from(answer: Json, outcome: Result<(String, String), ShaderError>) -> bool {
    match outcome {
        Ok((name, code)) => extracted(answer) == Some((name@, code@)),
        Err(ShaderError::MalformedResponse) => extracted(answer) is None,
        Err(_) => false,
    }
}

/// Writes the name of the file that a shader of the given name is saved to.
pub fn shader_file_name(name: &str) -> (file_name: String)
    ensures
        file_name@ == file_name_for(name@),
{
    replace_blanks(name).concat(".frag").as_str().to_lowercase()
}

/// Picks the code of the image pass among several passes.
fn pick_image_code(passes: &Vec<Json>) -> (code: Option<String>)
    ensures
        match code {
            Some(code) => image_code(passes@) == Some(code@),
            None => image_code(passes@) is None,
        },
{
    let mut code = String::new();
    let mut i: usize = 0;
    while i < passes.len()
        invariant
            i <= passes.len(),
            image_code(passes@.take(i as int)) == Some(code@),
        decreases passes.len() - i,
    {
        proof {
            assert(passes@.take(i + 1).drop_last() == passes@.take(i as int));
            assert(passes@.take(i + 1).last() == passes@[i as int]);
        }
        let pass = &passes[i];
        let is_image = match pass.get("name") {
            Some(name) => match name.text() {
                Some(name) => same_text(name, "Image"),
                None => false,
            },
            None => false,
        };
        if is_image {
            let found = match pass.get("code") {
                Some(found) => found.text(),
                None => None,
            };
            match found {
                Some(found) => {
                    code = String::from_str(found);
                },
                None => {
                    proof {
                        lemma_image_code_stays_none(passes@, i + 1);
                    }
                    return None;
                },
            }
        }
        i = i + 1;
    }
    assert(passes@.take(passes.len() as int) == passes@);
    Some(code)
}

/// Once the passes up to a place are without a result, so are all.
proof fn lemma_image_code_stays_none(passes: Seq<Json>, n: int)
    requires
        0 <= n <= passes.len(),
        image_code(passes.take(n)) is None,
    ensures
        image_code(passes) is None,
    decreases passes.len() - n,
{
    if n < passes.len() {
        assert(passes.take(n + 1).drop_last() == passes.take(n));
        lemma_image_code_stays_none(passes, n + 1);
    } else {
        assert(passes.take(n) == passes);
    }
}

/// Takes a shader's file name and code out of an answer of the catalog.
/// An answer that holds no name or no code where they are looked for is a
/// malformed response.
pub fn extract_from_json(json: &Json) -> (outcome: Result<(String, String), ShaderError>)
    ensures
        is_extracted_from(*json, outcome),
{
    let shader = match json.at(0) {
        Some(shader) => shader,
        None => {
            return Err(ShaderError::MalformedResponse);
        },
    };
    let name = match shader.get("info") {
        Some(info) => match info.get("name") {
            Some(name) => name.text(),
            None => None,
        },
        None => None,
    };
    let passes = match shader.get("renderpass") {
        Some(passes) => passes.items(),
        None => None,
    };
    match (name, passes) {
        (Some(name), Some(passes)) => {
            let code = if passes.len() > 1 {
                pick_image_code(passes)
            } else if passes.len() == 1 {
                match passes[0].get("code") {
                    Some(code) => match code.text() {
                        Some(code) => Some(String::from_str(code)),
                        None => None,
                    },
                    None => None,
                }
            } else {
                None
            };
            match code {
                Some(code) => Ok((shader_file_name(name), code)),
                None => Err(ShaderError::MalformedResponse),
            }
        },
        _ => Err(ShaderError::MalformedResponse),
    }
}

/// Reads a text as JSON. A text that is not JSON fails with what
/// `serde_json` says of it.
pub fn read_json(text: &str) -> (read: Result<Json, ShaderError>)
    ensures
        match json_of_text(text@) {
            Some(json) => read == Ok::<Json, ShaderError>(json),
            None => read matches Err(ShaderError::Json(_)),
        },
{
    match parse_json(text) {
        Ok(value) => Ok(json_from_value(value)),
        Err(e) => Err(ShaderError::Json(e)),
    }
}

/// Reads an answer of the catalog and takes the shader's file name and
/// code out of it.
pub fn get_shader_name_and_code(answer: &str) -> (outcome: Result<(String, String), ShaderError>)
    ensures
        match json_of_text(answer@) {
            Some(json) => is_extracted_from(json, outcome),
            None => outcome matches Err(ShaderError::Json(_)),
        },
{
    match read_json(answer) {
        Ok(json) => extract_from_json(&json),
        Err(e) => Err(e),
    }
}

/// What fetching the shader `id` comes to once the catalog has answered:
/// the name of the file to save to and the code to save in it. The
/// catalog's empty answer means that it knows no such shader.
pub fn download(id: &str, answer: String) -> (outcome: Result<(String, String), ShaderError>)
    ensures
        answer@ == EMPTY_ANSWER@ ==> (outcome matches Err(ShaderError::InvalidShaderId(e)) && e.id@
            == id@),
        answer@ != EMPTY_ANSWER@ ==> match json_of_text(answer@) {
            Some(json) => is_extracted_from(json, outcome),
            None => outcome matches Err(ShaderError::Json(_)),
        },
{
    match get_json_string(id, answer) {
        Ok(json) => get_shader_name_and_code(json.as_str()),
        Err(e) => Err(e),
    }
}

} // verus!

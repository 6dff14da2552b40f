//! The failures that loading, checking, fetching and saving a shader can
//! end in, and the line that reports each.

use vstd::prelude::*;

verus! {

/// `std::io::Error`. The library carries such an error and lets it display
/// itself; it never looks inside.
#[verifier::external_type_specification]
#[verifier::external_body]
pub struct ExIoError(std::io::Error);

/// `serde_json::Error`. The library carries such an error and lets it
/// display itself; it never looks inside.
#[verifier::external_type_specification]
#[verifier::external_body]
pub struct ExJsonError(serde_json::Error);

/// The uniform names of the Shadertoy dialect that this viewer does not
/// provide, in the order in which a diagnostic lists them.
pub open spec fn unsupported_uniform_names() -> Seq<Seq<char>> {
    seq!["iTimeDelta"@, "iChannelTime"@, "iChannelResolution"@, "iDate"@, "iSampleRate"@]
}

/// The uniform names that a shader may not use.
pub fn unsupported_uniforms() -> (names: Vec<&'static str>)
    ensures
        names@.map_values(|name: &'static str| name@) == unsupported_uniform_names(),
{
    let names = vec!["iTimeDelta", "iChannelTime", "iChannelResolution", "iDate", "iSampleRate"];
    assert(names@.map_values(|name: &'static str| name@) =~= unsupported_uniform_names());
    names
}

/// A text between double quotes, with the escapes that `Debug` for `str`
/// writes.
pub uninterp spec fn debug_quoted(text: Seq<char>) -> Seq<char>;

/// Formats a string with `{:?}`, that is with `Debug` for `str`. All that
/// is claimed is that the result is a function of the text alone; which
/// characters are escaped, and how, is left to `std`.
#[verifier::external_body]
fn quoted(text: &str) -> (q: String)
    ensures
        q@ == debug_quoted(text@),
{
    format!("{:?}", text)
}

/// Texts set apart by a comma and a blank.
pub open spec fn joined(items: Seq<Seq<char>>) -> Seq<char>
    decreases items.len(),
{
    if items.len() == 0 {
        Seq::empty()
    } else if items.len() == 1 {
        items[0]
    } else {
        joined(items.drop_last()) + ", "@ + items.last()
    }
}

/// The line that reports uniforms as not supported, given their names as
/// they are to be shown.
pub open spec fn listed_text(shown: Seq<Seq<char>>) -> Seq<char> {
    "The following uniforms are not supported: ["@ + joined(shown) + "]"@
}

/// Whether `text` is what `to_string` gives for an I/O error.
pub open spec fn displays_as(error: std::io::Error, text: String) -> bool {
    vstd::string::to_string_from_display_ensures::<std::io::Error>(&error, text)
}

/// The line that reports a shader of the given name as unreadable for the
/// given cause.
pub open spec fn load_shader_text(shadername: Seq<char>, cause: Seq<char>) -> Seq<char> {
    "Error loading shader "@ + shadername + ": "@ + cause
}

/// The line that reports that there is no example of the given name.
pub open spec fn find_example_text(example: Seq<char>) -> Seq<char> {
    "Failed to find example shader "@ + example
}

/// The line that reports that the catalog knows no shader of the given
/// identifier.
pub open spec fn invalid_id_text(id: Seq<char>) -> Seq<char> {
    "Invalid shader ID: "@ + id
}

/// The line that reports that a shader could not be saved under the given
/// name for the given cause.
pub open spec fn save_shader_text(shadername: Seq<char>, cause: Seq<char>) -> Seq<char> {
    "Error saving shader "@ + shadername + ": "@ + cause
}

/// The line that reports the given uniform names as not supported: each
/// name is shown in quotes.
pub open spec fn unsupported_text(names: Seq<Seq<char>>) -> Seq<char> {
    listed_text(names.map_values(|name: Seq<char>| debug_quoted(name)))
}

/// Writes out `load_shader_text`.
pub fn describe_load_failure(shadername: &str, cause: &str) -> (text: String)
    ensures
        text@ == load_shader_text(shadername@, cause@),
{
    String::from_str("Error loading shader ").concat(shadername).concat(": ").concat(cause)
}

/// Writes out `save_shader_text`.
pub fn describe_save_failure(shadername: &str, cause: &str) -> (text: String)
    ensures
        text@ == save_shader_text(shadername@, cause@),
{
    String::from_str("Error saving shader ").concat(shadername).concat(": ").concat(cause)
}

/// Writes out `listed_text`.
pub fn describe_unsupported(shown: &Vec<String>) -> (text: String)
    ensures
        text@ == listed_text(shown@.map_values(|name: String| name@)),
{
    let ghost items = shown@.map_values(|name: String| name@);
    let mut list = String::new();
    let mut i: usize = 0;
    while i < shown.len()
        invariant
            i <= shown.len(),
            items == shown@.map_values(|name: String| name@),
            list@ == joined(items.take(i as int)),
        decreases shown.len() - i,
    {
        proof {
            assert(items.take(i + 1).drop_last() == items.take(i as int));
            assert(items.take(i + 1).last() == shown@[i as int]@);
        }
        if i > 0 {
            list.append(", ");
        }
        list.append(shown[i].as_str());
        assert(list@ == joined(items.take(i + 1))) by {
            if i == 0 {
                assert(items.take(0).len() == 0);
                assert(list@ =~= items.take(1)[0]);
            }
        }
        i = i + 1;
    }
    assert(items.take(shown.len() as int) == items);
    String::from_str("The following uniforms are not supported: [").concat(list.as_str()).concat(
        "]",
    )
}

/// A shader file could not be read.
#[derive(Debug)]
pub struct LoadShaderError {
    pub shadername: String,
    pub error: std::io::Error,
}

impl LoadShaderError {
    pub fn new(shadername: &str, error: std::io::Error) -> (e: LoadShaderError)
        ensures
            e.shadername@ == shadername@,
            e.error == error,
    {
        LoadShaderError { shadername: String::from_str(shadername), error }
    }

    /// The line that reports the failure: the shader's name, and the cause
    /// as the I/O error displays itself.
    pub fn message(&self) -> (text: String)
        ensures
            exists|cause: String| #[trigger]
                displays_as(self.error, cause) && text@ == load_shader_text(
                    self.shadername@,
                    cause@,
                ),
    {
        let cause = self.error.to_string();
        assert(displays_as(self.error, cause));
        describe_load_failure(self.shadername.as_str(), cause.as_str())
    }
}

/// No example is built in under the name that was asked for.
#[derive(Debug)]
pub struct FindExampleShaderError {
    pub example: String,
}

impl FindExampleShaderError {
    pub fn new(example: &str) -> (e: FindExampleShaderError)
        ensures
            e.example@ == example@,
    {
        FindExampleShaderError { example: String::from_str(example) }
    }

    /// The line that reports the failure.
    pub fn message(&self) -> (text: String)
        ensures
            text@ == find_example_text(self.example@),
    {
        String::from_str("Failed to find example shader ").concat(self.example.as_str())
    }
}

/// The catalog knows no shader of the identifier that was asked for.
#[derive(Debug)]
pub struct InvalidShaderIdError {
    pub id: String,
}

impl InvalidShaderIdError {
    pub fn new(id: &str) -> (e: InvalidShaderIdError)
        ensures
            e.id@ == id@,
    {
        InvalidShaderIdError { id: String::from_str(id) }
    }

    /// The line that reports the failure.
    pub fn message(&self) -> (text: String)
        ensures
            text@ == invalid_id_text(self.id@),
    {
        String::from_str("Invalid shader ID: ").concat(self.id.as_str())
    }
}

/// A fetched shader could not be written to its file.
#[derive(Debug)]
pub struct SaveShaderError {
    pub shadername: String,
    pub error: std::io::Error,
}

impl SaveShaderError {
    pub fn new(shadername: &str, error: std::io::Error) -> (e: SaveShaderError)
        ensures
            e.shadername@ == shadername@,
            e.error == error,
    {
        SaveShaderError { shadername: String::from_str(shadername), error }
    }

    /// The line that reports the failure: the shader's name, and the cause
    /// as the I/O error displays itself.
    pub fn message(&self) -> (text: String)
        ensures
            exists|cause: String| #[trigger]
                displays_as(self.error, cause) && text@ == save_shader_text(
                    self.shadername@,
                    cause@,
                ),
    {
        let cause = self.error.to_string();
        assert(displays_as(self.error, cause));
        describe_save_failure(self.shadername.as_str(), cause.as_str())
    }
}

/// A shader uses uniforms that this viewer does not provide.
#[derive(Debug)]
pub struct UnsupportedUniformError {
    pub unsupported_uniforms: Vec<String>,
}

impl UnsupportedUniformError {
    /// The names held, as texts.
    pub open spec fn names(&self) -> Seq<Seq<char>> {
        self.unsupported_uniforms@.map_values(|name: String| name@)
    }

    pub fn new(unsupported_uniforms: Vec<String>) -> (e: UnsupportedUniformError)
        ensures
            e.unsupported_uniforms == unsupported_uniforms,
    {
        UnsupportedUniformError { unsupported_uniforms }
    }

    /// The line that reports the failure: the names, each in quotes.
    pub fn message(&self) -> (text: String)
        ensures
            text@ == unsupported_text(self.names()),
    {
        let ghost shown = self.names().map_values(|name: Seq<char>| debug_quoted(name));
        let mut quoted_names: Vec<String> = Vec::new();
        let mut i: usize = 0;
        while i < self.unsupported_uniforms.len()
            invariant
                i <= self.unsupported_uniforms.len(),
                shown == self.names().map_values(|name: Seq<char>| debug_quoted(name)),
                quoted_names@.map_values(|name: String| name@) == shown.take(i as int),
            decreases self.unsupported_uniforms.len() - i,
        {
            let ghost before = quoted_names@.map_values(|name: String| name@);
            let q = quoted(self.unsupported_uniforms[i].as_str());
            quoted_names.push(q);
            assert(quoted_names@.map_values(|name: String| name@) == before.push(q@));
            assert(shown.take(i + 1) == shown.take(i as int).push(shown[i as int]));
            i = i + 1;
        }
        assert(shown.take(self.unsupported_uniforms.len() as int) == shown);
        describe_unsupported(&quoted_names)
    }
}

/// Every failure of the library.
#[derive(Debug)]
pub enum ShaderError {
    LoadShader(LoadShaderError),
    FindExampleShader(FindExampleShaderError),
    InvalidShaderId(InvalidShaderIdError),
    SaveShader(SaveShaderError),
    UnsupportedUniform(UnsupportedUniformError),
    /// The catalog's answer is not JSON.
    Json(serde_json::Error),
    /// The catalog's answer is JSON, but holds no shader where one is
    /// looked for.
    MalformedResponse,
}

/// The line that reports a catalog answer without a shader in it.
pub open spec fn malformed_response_text() -> Seq<char> {
    "Malformed response from the shader catalog"@
}

impl ShaderError {
    /// The line that reports the failure. An I/O error and an error of
    /// the JSON reader speak for themselves.
    pub fn message(&self) -> (text: String)
        ensures
            match self {
                ShaderError::LoadShader(e) => exists|cause: String| #[trigger]
                    displays_as(e.error, cause) && text@ == load_shader_text(
                        e.shadername@,
                        cause@,
                    ),
                ShaderError::FindExampleShader(e) => text@ == find_example_text(e.example@),
                ShaderError::InvalidShaderId(e) => text@ == invalid_id_text(e.id@),
                ShaderError::SaveShader(e) => exists|cause: String| #[trigger]
                    displays_as(e.error, cause) && text@ == save_shader_text(
                        e.shadername@,
                        cause@,
                    ),
                ShaderError::UnsupportedUniform(e) => text@ == unsupported_text(e.names()),
                ShaderError::Json(e) => vstd::string::to_string_from_display_ensures::<
                    serde_json::Error,
                >(e, text),
                ShaderError::MalformedResponse => text@ == malformed_response_text(),
            },
    {
        match self {
            ShaderError::LoadShader(e) => e.message(),
            ShaderError::FindExampleShader(e) => e.message(),
            ShaderError::InvalidShaderId(e) => e.message(),
            ShaderError::SaveShader(e) => e.message(),
            ShaderError::UnsupportedUniform(e) => e.message(),
            ShaderError::Json(e) => e.to_string(),
            ShaderError::MalformedResponse => String::from_str(
                "Malformed response from the shader catalog",
            ),
        }
    }
}

} // verus!

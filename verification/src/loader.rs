//! From a shader's origin to the bytes that are compiled: which text is
//! taken, the check for uniforms that are not provided, and the frame that
//! is put round the text. Also which image fills a texture slot.

use vstd::prelude::*;
use vstd::utf8::encode_utf8;
use crate::argvalues::{ArgValues, FilterMethod, ShaderOrigin, WrapMode};
use crate::error::{
    FindExampleShaderError,
    LoadShaderError,
    ShaderError,
    UnsupportedUniformError,
    unsupported_uniform_names,
    unsupported_uniforms,
};
use crate::runner::TextureId;
use crate::text::{chars_of, occurs, occurs_in, same_text};

verus! {

/// The vertex program: it spans the drawing surface and hands each
/// fragment its place in pixels.
pub const DEFAULT_VERT_SRC_STR: &'static str = "#version 150 core

uniform vec3 iResolution;

in vec2 position;
out vec2 fragCoord;

void main() {
    fragCoord = (position + vec2(1.0)) / vec2(2.0) * iResolution.xy;
    gl_Position = vec4(position, 0.0, 1.0);
}
";

/// The fragment program that is shown when none is named.
pub const DEFAULT_FRAG_SRC_STR: &'static str =
    "void mainImage(out vec4 fragColor, in vec2 fragCoord) {
    vec2 uv = fragCoord.xy / iResolution.xy;
    fragColor = vec4(uv, 0.5 + 0.5 * sin(iTime), 1.0);
}
";

/// What stands before the text of every fragment program: the version, the
/// uniforms that are provided, and the variables that go in and out.
pub const PREFIX: &'static str = "
    #version 150 core

    uniform float     iGlobalTime;
    uniform float     iTime;
    uniform vec3      iResolution;
    uniform vec4      iMouse;
    uniform int       iFrame;
    uniform sampler2D iChannel0;
    uniform sampler2D iChannel1;
    uniform sampler2D iChannel2;
    uniform sampler2D iChannel3;

    in vec2 fragCoord;
    out vec4 fragColor;
";

/// What stands after the text of every fragment program: the entry point,
/// which calls the program's `mainImage`.
pub const SUFFIX: &'static str = "
    void main() {
        mainImage(fragColor, fragCoord);
    }
";

/// The examples that are built in.
#[derive(Clone, Copy, Debug, PartialEq, Eq, Structural)]
pub enum Example {
    Seascape,
    ElementalRing,
}

/// What is still to be done before the text of a shader is at hand.
#[derive(Debug, PartialEq, Eq)]
pub enum SourceRequest {
    /// Nothing: this is the text.
    Text(String),
    /// The caller reads the file at this path.
    File(String),
    /// The caller takes the text of this example.
    Example(Example),
    /// The caller takes the text that it fetched under this identifier.
    Remote(String),
}

/// The image that fills a texture slot.
#[derive(Debug, PartialEq, Eq)]
pub enum TextureSource {
    /// The image file at this path.
    File(String),
    /// The image that is built in for this slot.
    Default(TextureId),
}

/// All that is configured for one texture slot.
#[derive(Debug, PartialEq, Eq)]
pub struct TextureSlot {
    pub source: TextureSource,
    pub wrap: WrapMode,
    pub filter: FilterMethod,
    /// Whether mipmaps are made once the image is on the GPU.
    pub mipmaps: bool,
}

/// The whole text of a fragment program with the given body.
pub open spec fn program_text(body: Seq<char>) -> Seq<char> {
    PREFIX@ + "\n"@ + body + "\n"@ + SUFFIX@
}

/// The names of uniforms that are not provided and that stand somewhere in
/// `text`, in the order of `unsupported_uniform_names`.
pub open spec fn unsupported_in(text: Seq<char>) -> Seq<Seq<char>> {
    unsupported_uniform_names().filter(|name: Seq<char>| occurs_in(text, name))
}

/// The example of the given name, if there is one.
pub open spec fn example_named(name: Seq<char>) -> Option<Example> {
    if name == "seascape"@ {
        Some(Example::Seascape)
    } else if name == "elemental-ring"@ {
        Some(Example::ElementalRing)
    } else {
        None
    }
}

/// Whether `request` is what is to be done for the text of a shader of
/// the given origin, or the failure for an example that is not built in.
pub open spec fn is_request_for(
    origin: ShaderOrigin,
    request: Result<SourceRequest, ShaderError>,
) -> bool {
    match (origin, request) {
        (ShaderOrigin::Remote(id), Ok(SourceRequest::Remote(fetched))) => fetched@ == id@,
        (ShaderOrigin::Example(name), Ok(SourceRequest::Example(example))) => example_named(name@)
            == Some(example),
        (ShaderOrigin::Example(name), Err(ShaderError::FindExampleShader(e))) => example_named(
            name@,
        ) is None && e.example@ == name@,
        (ShaderOrigin::File(path), Ok(SourceRequest::File(file))) => file@ == path@,
        (ShaderOrigin::Default, Ok(SourceRequest::Text(text))) => text@ == DEFAULT_FRAG_SRC_STR@,
        _ => false,
    }
}

/// Which example goes by the given name.
pub fn find_example(name: &str) -> (found: Option<Example>)
    ensures
        found == example_named(name@),
{
    if same_text(name, "seascape") {
        Some(Example::Seascape)
    } else if same_text(name, "elemental-ring") {
        Some(Example::ElementalRing)
    } else {
        None
    }
}

/// Says what is to be done before the text of a shader of the given origin
/// is at hand. Only an example that is not built in fails here.
pub fn source_request(origin: &ShaderOrigin) -> (request: Result<SourceRequest, ShaderError>)
    ensures
        is_request_for(*origin, request),
{
    match origin {
        ShaderOrigin::Remote(id) => Ok(SourceRequest::Remote(id.clone())),
        ShaderOrigin::Example(name) => match find_example(name.as_str()) {
            Some(example) => Ok(SourceRequest::Example(example)),
            None => Err(ShaderError::FindExampleShader(FindExampleShaderError::new(name.as_str()))),
        },
        ShaderOrigin::File(path) => Ok(SourceRequest::File(path.clone())),
        ShaderOrigin::Default => Ok(SourceRequest::Text(String::from_str(DEFAULT_FRAG_SRC_STR))),
    }
}

/// The failure of reading the shader at `shaderpath`, as a result of any
/// type.
pub fn return_load_shader_error<E>(shaderpath: &str, err: std::io::Error) -> (failed: Result<
    E,
    ShaderError,
>)
    ensures
        failed matches Err(ShaderError::LoadShader(e)) && e.shadername@ == shaderpath@ && e.error
            == err,
{
    Err(ShaderError::LoadShader(LoadShaderError::new(shaderpath, err)))
}

/// The text of the shader at `shaderpath`, given what reading the file
/// came to.
pub fn file_text(shaderpath: &str, read: Result<String, std::io::Error>) -> (text: Result<
    String,
    ShaderError,
>)
    ensures
        match read {
            Ok(contents) => text == Ok::<String, ShaderError>(contents),
            Err(err) => text matches Err(ShaderError::LoadShader(e)) && e.shadername@
                == shaderpath@ && e.error == err,
        },
{
    match read {
        Ok(contents) => Ok(contents),
        Err(err) => return_load_shader_error(shaderpath, err),
    }
}

/// Puts the frame round the text of a fragment program and encodes the
/// whole as UTF-8.
pub fn format_shader_src(src: &str) -> (bytes: Vec<u8>)
    ensures
        bytes@ == encode_utf8(program_text(src@)),
{
    let text = String::from_str(PREFIX).concat("\n").concat(src).concat("\n").concat(SUFFIX);
    text.as_str().as_bytes_vec()
}

/// The vertex program, encoded as UTF-8.
pub fn load_vertex_shader() -> (bytes: Vec<u8>)
    ensures
        bytes@ == encode_utf8(DEFAULT_VERT_SRC_STR@),
{
    DEFAULT_VERT_SRC_STR.as_bytes_vec()
}

/// Looks through `src` for uniforms that are not provided.
pub fn find_unsupported(src: &str) -> (found: Vec<String>)
    ensures
        found@.map_values(|name: String| name@) == unsupported_in(src@),
{
    let text = chars_of(src);
    let names = unsupported_uniforms();
    let ghost listed = unsupported_uniform_names();
    let ghost wanted = |name: Seq<char>| occurs_in(src@, name);
    let mut found: Vec<String> = Vec::new();
    let mut i: usize = 0;
    while i < names.len()
        invariant
            i <= names.len(),
            text@ == src@,
            listed == unsupported_uniform_names(),
            names@.map_values(|name: &'static str| name@) == listed,
            wanted == |name: Seq<char>| occurs_in(src@, name),
            found@.map_values(|name: String| name@) == listed.take(i as int).filter(wanted),
        decreases names.len() - i,
    {
        let name = names[i];
        let pattern = chars_of(name);
        proof {
            reveal_with_fuel(Seq::filter, 2);
            assert(listed.take(i + 1).drop_last() == listed.take(i as int));
            assert(listed.take(i + 1).last() == name@);
            assert(listed[i as int] == names@.map_values(|name: &'static str| name@)[i as int]);
        }
        if occurs(&text, &pattern) {
            let ghost before = found@.map_values(|name: String| name@);
            found.push(String::from_str(name));
            assert(found@.map_values(|name: String| name@) == before.push(name@));
        }
        i = i + 1;
    }
    assert(listed.take(names.len() as int) == listed);
    found
}

/// The bytes to compile for a fragment program with the text `src`. A text
/// in which a uniform stands that is not provided is refused, with every
/// such uniform named; any other text is framed and encoded.
pub fn load_fragment_shader(src: &str) -> (loaded: Result<Vec<u8>, ShaderError>)
    ensures
        match loaded {
            Ok(bytes) => unsupported_in(src@).len() == 0 && bytes@ == encode_utf8(
                program_text(src@),
            ),
            Err(ShaderError::UnsupportedUniform(e)) => unsupported_in(src@).len() > 0 && e.names()
                == unsupported_in(src@),
            Err(_) => false,
        },
{
    let found = find_unsupported(src);
    if found.len() == 0 {
        Ok(format_shader_src(src))
    } else {
        Err(ShaderError::UnsupportedUniform(UnsupportedUniformError::new(found)))
    }
}

/// The image for a texture slot: the file that was named for it, or else
/// the slot's built-in image.
pub fn texture_source(id: &TextureId, texpath: &Option<String>) -> (source: TextureSource)
    ensures
        match *texpath {
            Some(path) => source matches TextureSource::File(file) && file@ == path@,
            None => source == TextureSource::Default(*id),
        },
{
    match texpath {
        Some(path) => TextureSource::File(path.clone()),
        None => TextureSource::Default(*id),
    }
}

/// The size of a texture for an image of the given size: each side is cut
/// to its low sixteen bits.
pub fn texture_extent(width: u32, height: u32) -> (extent: (u16, u16))
    ensures
        extent.0 == width % 0x1_0000,
        extent.1 == height % 0x1_0000,
{
    ((width % 0x1_0000) as u16, (height % 0x1_0000) as u16)
}

/// Whether mipmaps are made for a texture that is sampled with `mode`: for
/// every method but the two that never read them.
pub open spec fn spec_needs_mipmap(mode: FilterMethod) -> bool {
    mode != FilterMethod::Scale && mode != FilterMethod::Bilinear
}

#[verifier::when_used_as_spec(spec_needs_mipmap)]
pub fn needs_mipmap(mode: FilterMethod) -> (needed: bool)
    ensures
        needed == spec_needs_mipmap(mode),
{
    match mode {
        FilterMethod::Scale | FilterMethod::Bilinear => false,
        _ => true,
    }
}

/// The path that is configured for a texture slot.
pub open spec fn slot_path<T>(av: ArgValues<T>, id: TextureId) -> Option<String> {
    match id {
        TextureId::Zero => av.texture0path,
        TextureId::One => av.texture1path,
        TextureId::Two => av.texture2path,
        TextureId::Three => av.texture3path,
    }
}

/// The wrap mode that is configured for a texture slot.
pub open spec fn slot_wrap<T>(av: ArgValues<T>, id: TextureId) -> WrapMode {
    match id {
        TextureId::Zero => av.wrap0,
        TextureId::One => av.wrap1,
        TextureId::Two => av.wrap2,
        TextureId::Three => av.wrap3,
    }
}

/// The filter method that is configured for a texture slot.
pub open spec fn slot_filter<T>(av: ArgValues<T>, id: TextureId) -> FilterMethod {
    match id {
        TextureId::Zero => av.filter0,
        TextureId::One => av.filter1,
        TextureId::Two => av.filter2,
        TextureId::Three => av.filter3,
    }
}

/// What the configuration says of one texture slot: the image to load, how
/// it is wrapped and filtered, and whether mipmaps are made for it.
pub fn texture_slot<T>(av: &ArgValues<T>, id: TextureId) -> (slot: TextureSlot)
    ensures
        match slot_path(*av, id) {
            Some(path) => slot.source matches TextureSource::File(file) && file@ == path@,
            None => slot.source == TextureSource::Default(id),
        },
        slot.wrap == slot_wrap(*av, id),
        slot.filter == slot_filter(*av, id),
        slot.mipmaps == spec_needs_mipmap(slot_filter(*av, id)),
{
    let (path, wrap, filter) = match id {
        TextureId::Zero => (&av.texture0path, av.wrap0, av.filter0),
        TextureId::One => (&av.texture1path, av.wrap1, av.filter1),
        TextureId::Two => (&av.texture2path, av.wrap2, av.filter2),
        TextureId::Three => (&av.texture3path, av.wrap3, av.filter3),
    };
    TextureSlot { source: texture_source(&id, path), wrap, filter, mipmaps: needs_mipmap(filter) }
}

/// A name of a uniform that is not provided is reported for a text exactly
/// if it stands somewhere in the text; so a text in which none stands is
/// framed and encoded, and a text in which one stands is refused with that
/// name among those reported.
pub proof fn law_unsupported_found(text: Seq<char>, name: Seq<char>)
    ensures
        unsupported_in(text).contains(name) <==> unsupported_uniform_names().contains(name)
            && occurs_in(text, name),
        unsupported_in(text).len() == 0 <==> forall|listed: Seq<char>|
            unsupported_uniform_names().contains(listed) ==> !occurs_in(text, listed),
{
    let names = unsupported_uniform_names();
    let wanted = |name: Seq<char>| occurs_in(text, name);
    let found = names.filter(wanted);
    if found.len() == 0 {
        assert forall|listed: Seq<char>| names.contains(listed) implies !occurs_in(
            text,
            listed,
        ) by {
            if occurs_in(text, listed) {
                let i = choose|i: int| 0 <= i < names.len() && names[i] == listed;
                names.lemma_filter_contains(wanted, i);
            }
        }
    } else {
        assert(found.contains(found[0]));
        names.lemma_filter_pred(wanted, 0);
        names.lemma_filter_contains_rev(wanted, found[0]);
    }
    if found.contains(name) {
        let i = choose|i: int| 0 <= i < found.len() && found[i] == name;
        names.lemma_filter_pred(wanted, i);
        names.lemma_filter_contains_rev(wanted, name);
    }
    if names.contains(name) && occurs_in(text, name) {
        let i = choose|i: int| 0 <= i < names.len() && names[i] == name;
        names.lemma_filter_contains(wanted, i);
    }
}

} // verus!

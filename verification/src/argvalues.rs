//! The resolved configuration of one run: what the command line asked for,
//! with every option that was left out set to its default.

use vstd::prelude::*;
use crate::text::{chars_of, same_text};

verus! {

/// How a texture is continued beyond its edges.
#[derive(Clone, Copy, Debug, PartialEq, Eq, Structural)]
pub enum WrapMode {
    /// Repeat the texture.
    Tile,
    /// Repeat it, every other copy mirrored.
    Mirror,
    /// Continue the colour of the edge.
    Clamp,
    /// Use the border colour.
    Border,
}

/// How a texture is sampled between and across its texels.
#[derive(Clone, Copy, Debug, PartialEq, Eq, Structural)]
pub enum FilterMethod {
    /// The nearest texel; no mipmaps.
    Scale,
    /// The nearest texel of the nearest mipmap level.
    Mipmap,
    /// Blend the four nearest texels; no mipmaps.
    Bilinear,
    /// Blend the four nearest texels of the two nearest mipmap levels.
    Trilinear,
    /// Trilinear with anisotropic filtering up to the given level.
    Anisotropic(u8),
}

/// Where the fragment program comes from. Fixed when the run starts.
#[derive(Debug, PartialEq, Eq)]
pub enum ShaderOrigin {
    /// A shader fetched from the catalog under this identifier.
    Remote(String),
    /// An example that is built in under this name.
    Example(String),
    /// A file at this path.
    File(String),
    /// The built-in default program.
    Default,
}

/// What a run does first.
#[derive(Debug, PartialEq, Eq)]
pub enum Startup {
    /// Fetch the shader with this identifier, save it, and end.
    Fetch(String),
    /// Fetch the shader with this identifier, save it, and show it.
    FetchAndRun(String),
    /// Show the shader of the configured origin.
    Run,
}

/// The resolved configuration. `T` is the number type of the window's size.
#[derive(Debug)]
pub struct ArgValues<T> {
    pub width: T,
    pub height: T,
    /// Path to the shader. `None` if no file was named.
    pub shaderpath: Option<String>,
    /// Path to the n-th texture. `None` to use the built-in texture.
    pub texture0path: Option<String>,
    pub texture1path: Option<String>,
    pub texture2path: Option<String>,
    pub texture3path: Option<String>,
    /// Wrap mode of the n-th texture.
    pub wrap0: WrapMode,
    pub wrap1: WrapMode,
    pub wrap2: WrapMode,
    pub wrap3: WrapMode,
    /// Filter method of the n-th texture.
    pub filter0: FilterMethod,
    pub filter1: FilterMethod,
    pub filter2: FilterMethod,
    pub filter3: FilterMethod,
    /// Highest level of anisotropic filtering, from 1 to 16.
    pub anisotropic_max: u8,
    /// Name of the example to run, if any.
    pub examplename: Option<String>,
    /// Catalog identifier of the shader to fetch, if any.
    pub getid: Option<String>,
    /// Window title. `None` to derive it from the shader's name.
    pub title: Option<String>,
    /// Whether a fetched shader is also shown.
    pub andrun: bool,
    /// Whether the conversion of the frame buffer to sRGB is switched off.
    pub force_srgb_off: bool,
}

impl<T> ArgValues<T> {
    /// The origin that the configuration names: a catalog identifier comes
    /// before an example, an example before a file, and with none of them
    /// the default program is shown.
    pub open spec fn spec_origin(&self) -> ShaderOrigin {
        match (self.getid, self.examplename, self.shaderpath) {
            (Some(id), _, _) => ShaderOrigin::Remote(id),
            (None, Some(name), _) => ShaderOrigin::Example(name),
            (None, None, Some(path)) => ShaderOrigin::File(path),
            (None, None, None) => ShaderOrigin::Default,
        }
    }

    #[verifier::when_used_as_spec(spec_origin)]
    pub fn origin(&self) -> (origin: ShaderOrigin)
        ensures
            origin == self.spec_origin(),
    {
        if let Some(id) = &self.getid {
            ShaderOrigin::Remote(id.clone())
        } else if let Some(name) = &self.examplename {
            ShaderOrigin::Example(name.clone())
        } else if let Some(path) = &self.shaderpath {
            ShaderOrigin::File(path.clone())
        } else {
            ShaderOrigin::Default
        }
    }

    /// What the run does first: with a catalog identifier it fetches, and
    /// shows the shader only where that was asked for as well.
    pub open spec fn spec_startup(&self) -> Startup {
        match self.getid {
            Some(id) => if self.andrun {
                Startup::FetchAndRun(id)
            } else {
                Startup::Fetch(id)
            },
            None => Startup::Run,
        }
    }

    #[verifier::when_used_as_spec(spec_startup)]
    pub fn startup(&self) -> (startup: Startup)
        ensures
            startup == self.spec_startup(),
    {
        match &self.getid {
            Some(id) => if self.andrun {
                Startup::FetchAndRun(id.clone())
            } else {
                Startup::Fetch(id.clone())
            },
            None => Startup::Run,
        }
    }
}

/// What the command line of the `get` subcommand holds.
#[derive(Debug)]
pub struct GetValues {
    /// The identifier or address of the shader to fetch.
    pub id: Option<String>,
    /// Whether the flag to show the fetched shader is set.
    pub run: bool,
}

/// What the command line holds, option by option, as it was typed. The
/// window's size is not among them: the caller reads it as numbers.
#[derive(Debug)]
pub struct CliValues {
    pub example: Option<String>,
    pub shader: Option<String>,
    pub texture0: Option<String>,
    pub texture1: Option<String>,
    pub texture2: Option<String>,
    pub texture3: Option<String>,
    pub wrap0: Option<String>,
    pub wrap1: Option<String>,
    pub wrap2: Option<String>,
    pub wrap3: Option<String>,
    pub filter0: Option<String>,
    pub filter1: Option<String>,
    pub filter2: Option<String>,
    pub filter3: Option<String>,
    pub anisotropic_max: Option<String>,
    pub title: Option<String>,
    /// Whether the flag that switches sRGB off is set.
    pub force_srgb_off: bool,
    /// The `get` subcommand, where it was given.
    pub get: Option<GetValues>,
}

/// Whether a character is one of the digits 0 to 9.
pub open spec fn is_digit(c: char) -> bool {
    '0' <= c <= '9'
}

/// The number that a run of digits writes in base ten.
pub open spec fn decimal_value(digits: Seq<char>) -> nat
    decreases digits.len(),
{
    if digits.len() == 0 {
        0
    } else {
        (decimal_value(digits.drop_last()) * 10 + (digits.last() as u32 - '0' as u32)) as nat
    }
}

/// A text without the plus sign that may stand before a number.
pub open spec fn unsigned_part(text: Seq<char>) -> Seq<char> {
    if text.len() > 0 && text[0] == '+' {
        text.drop_first()
    } else {
        text
    }
}

/// Whether a text is made of digits alone.
pub open spec fn all_digits(text: Seq<char>) -> bool {
    forall|i: int| 0 <= i < text.len() ==> is_digit(#[trigger] text[i])
}

/// The number from 0 to 255 that a text writes: digits in base ten, with
/// one plus sign before them or none. Any other text writes no number.
pub open spec fn spec_parse_u8(text: Seq<char>) -> Option<u8> {
    let digits = unsigned_part(text);
    if digits.len() > 0 && all_digits(digits) && decimal_value(digits) <= u8::MAX {
        Some(decimal_value(digits) as u8)
    } else {
        None
    }
}

/// A run of digits is worth at least as much as any run it begins with.
proof fn lemma_decimal_value_grows(digits: Seq<char>, n: int)
    requires
        0 <= n <= digits.len(),
        all_digits(digits),
    ensures
        decimal_value(digits.take(n)) <= decimal_value(digits),
    decreases digits.len() - n,
{
    if n < digits.len() {
        let longer = digits.take(n + 1);
        assert(longer.drop_last() == digits.take(n));
        assert(is_digit(digits[n]));
        assert(longer.last() == digits[n]);
        lemma_decimal_value_grows(digits, n + 1);
    } else {
        assert(digits.take(n) == digits);
    }
}

/// Reads a number from 0 to 255.
pub fn parse_u8(text: &str) -> (number: Option<u8>)
    ensures
        number == spec_parse_u8(text@),
{
    let chars = chars_of(text);
    let start: usize = if chars.len() > 0 && chars[0] == '+' {
        1
    } else {
        0
    };
    let ghost digits = unsigned_part(chars@);
    if start == chars.len() {
        return None;
    }
    let mut value: u32 = 0;
    let mut i: usize = start;
    while i < chars.len()
        invariant
            start <= i <= chars.len(),
            chars@ == text@,
            digits == unsigned_part(text@),
            digits.len() == chars.len() - start,
            forall|k: int| 0 <= k < digits.len() ==> digits[k] == chars@[k + start],
            forall|k: int| 0 <= k < i - start ==> is_digit(#[trigger] digits[k]),
            value == decimal_value(digits.take(i - start)),
            value <= u8::MAX,
        decreases chars.len() - i,
    {
        let c = chars[i];
        if !('0' <= c && c <= '9') {
            assert(!is_digit(digits[i - start]));
            return None;
        }
        proof {
            let longer = digits.take(i - start + 1);
            assert(longer.drop_last() == digits.take(i - start));
            assert(longer.last() == c);
        }
        value = value * 10 + (c as u32 - '0' as u32);
        if value > 255 {
            proof {
                if all_digits(digits) {
                    lemma_decimal_value_grows(digits, i - start + 1);
                }
            }
            return None;
        }
        i = i + 1;
    }
    assert(digits.take(digits.len() as int) == digits);
    Some(value as u8)
}

/// The wrap mode that a name stands for. No name, and a name that is not
/// known, stand for clamping.
pub open spec fn spec_wrap_mode(name: Option<Seq<char>>) -> WrapMode {
    match name {
        Some(name) => if name == "repeat"@ {
            WrapMode::Tile
        } else if name == "mirror"@ {
            WrapMode::Mirror
        } else if name == "border"@ {
            WrapMode::Border
        } else {
            WrapMode::Clamp
        },
        None => WrapMode::Clamp,
    }
}

/// Reads a wrap mode.
pub fn wrap_mode(name: &Option<String>) -> (mode: WrapMode)
    ensures
        mode == spec_wrap_mode(text_view(*name)),
{
    match name {
        Some(name) => if same_text(name.as_str(), "repeat") {
            WrapMode::Tile
        } else if same_text(name.as_str(), "mirror") {
            WrapMode::Mirror
        } else if same_text(name.as_str(), "border") {
            WrapMode::Border
        } else {
            WrapMode::Clamp
        },
        None => WrapMode::Clamp,
    }
}

/// The text of a string that may be there.
pub open spec fn text_view(text: Option<String>) -> Option<Seq<char>> {
    match text {
        Some(text) => Some(text@),
        None => None,
    }
}

/// The filter method that a name stands for, with the given highest level
/// for anisotropic filtering. No name, and a name that is not known, stand
/// for mipmaps.
pub open spec fn spec_filter_method(name: Option<Seq<char>>, anisotropic_max: u8) -> FilterMethod {
    match name {
        Some(name) => if name == "scale"@ {
            FilterMethod::Scale
        } else if name == "bilinear"@ {
            FilterMethod::Bilinear
        } else if name == "trilinear"@ {
            FilterMethod::Trilinear
        } else if name == "anisotropic"@ {
            FilterMethod::Anisotropic(anisotropic_max)
        } else {
            FilterMethod::Mipmap
        },
        None => FilterMethod::Mipmap,
    }
}

/// Reads a filter method.
pub fn filter_method(name: &Option<String>, anisotropic_max: u8) -> (method: FilterMethod)
    ensures
        method == spec_filter_method(text_view(*name), anisotropic_max),
{
    match name {
        Some(name) => if same_text(name.as_str(), "scale") {
            FilterMethod::Scale
        } else if same_text(name.as_str(), "bilinear") {
            FilterMethod::Bilinear
        } else if same_text(name.as_str(), "trilinear") {
            FilterMethod::Trilinear
        } else if same_text(name.as_str(), "anisotropic") {
            FilterMethod::Anisotropic(anisotropic_max)
        } else {
            FilterMethod::Mipmap
        },
        None => FilterMethod::Mipmap,
    }
}

/// The highest level of anisotropic filtering that a text asks for: the
/// number it writes, brought into the range from 1 to 16. No text, and a
/// text that writes no number from 0 to 255, ask for 1.
pub open spec fn spec_anisotropic_level(text: Option<Seq<char>>) -> u8 {
    let asked = match text {
        Some(text) => match spec_parse_u8(text) {
            Some(number) => number,
            None => 1u8,
        },
        None => 1u8,
    };
    if asked < 1 {
        1u8
    } else if asked > 16 {
        16u8
    } else {
        asked
    }
}

/// Reads the highest level of anisotropic filtering.
pub fn anisotropic_level(text: &Option<String>) -> (level: u8)
    ensures
        level == spec_anisotropic_level(text_view(*text)),
        1 <= level <= 16,
{
    let asked: u8 = match text {
        Some(text) => match parse_u8(text.as_str()) {
            Some(number) => number,
            None => 1,
        },
        None => 1,
    };
    if asked < 1 {
        1
    } else if asked > 16 {
        16
    } else {
        asked
    }
}

impl<T> ArgValues<T> {
    /// The configuration that shows the shader at `shaderpath` in a window
    /// of the given size, with every option at its default.
    pub open spec fn spec_plain(width: T, height: T, shaderpath: String) -> ArgValues<T> {
        ArgValues {
            width,
            height,
            shaderpath: Some(shaderpath),
            texture0path: None,
            texture1path: None,
            texture2path: None,
            texture3path: None,
            wrap0: WrapMode::Clamp,
            wrap1: WrapMode::Clamp,
            wrap2: WrapMode::Clamp,
            wrap3: WrapMode::Clamp,
            filter0: FilterMethod::Mipmap,
            filter1: FilterMethod::Mipmap,
            filter2: FilterMethod::Mipmap,
            filter3: FilterMethod::Mipmap,
            anisotropic_max: 1,
            examplename: None,
            getid: None,
            title: None,
            andrun: false,
            force_srgb_off: false,
        }
    }

    /// The configuration that shows the shader at `shaderpath` with every
    /// option at its default. The caller has read the window's width and
    /// height as numbers and hands in each, or else the reason why it is
    /// no number; the first such reason, the width's before the height's,
    /// is reported.
    pub fn new(width: Result<T, String>, height: Result<T, String>, shaderpath: &str) -> (av:
        Result<ArgValues<T>, String>)
        ensures
            match (width, height) {
                (Ok(w), Ok(h)) => av matches Ok(av) && av.shaderpath matches Some(path) && path@
                    == shaderpath@ && av == ArgValues::spec_plain(w, h, path),
                (Err(cause), _) => av matches Err(text) && text@ == "Invalid width: "@ + cause@,
                (Ok(_), Err(cause)) => av matches Err(text) && text@ == "Invalid height: "@
                    + cause@,
            },
    {
        let width = match width {
            Ok(width) => width,
            Err(cause) => {
                return Err(String::from_str("Invalid width: ").concat(cause.as_str()));
            },
        };
        let height = match height {
            Ok(height) => height,
            Err(cause) => {
                return Err(String::from_str("Invalid height: ").concat(cause.as_str()));
            },
        };
        Ok(
            ArgValues {
                width,
                height,
                shaderpath: Some(String::from_str(shaderpath)),
                texture0path: None,
                texture1path: None,
                texture2path: None,
                texture3path: None,
                wrap0: WrapMode::Clamp,
                wrap1: WrapMode::Clamp,
                wrap2: WrapMode::Clamp,
                wrap3: WrapMode::Clamp,
                filter0: FilterMethod::Mipmap,
                filter1: FilterMethod::Mipmap,
                filter2: FilterMethod::Mipmap,
                filter3: FilterMethod::Mipmap,
                anisotropic_max: 1,
                examplename: None,
                getid: None,
                title: None,
                andrun: false,
                force_srgb_off: false,
            },
        )
    }

    /// The configuration that a command line resolves to, for a window of
    /// the given size.
    pub open spec fn spec_from_cli(width: T, height: T, cli: CliValues) -> ArgValues<T> {
        let anisotropic_max = spec_anisotropic_level(text_view(cli.anisotropic_max));
        ArgValues {
            width,
            height,
            shaderpath: cli.shader,
            texture0path: cli.texture0,
            texture1path: cli.texture1,
            texture2path: cli.texture2,
            texture3path: cli.texture3,
            wrap0: spec_wrap_mode(text_view(cli.wrap0)),
            wrap1: spec_wrap_mode(text_view(cli.wrap1)),
            wrap2: spec_wrap_mode(text_view(cli.wrap2)),
            wrap3: spec_wrap_mode(text_view(cli.wrap3)),
            filter0: spec_filter_method(text_view(cli.filter0), anisotropic_max),
            filter1: spec_filter_method(text_view(cli.filter1), anisotropic_max),
            filter2: spec_filter_method(text_view(cli.filter2), anisotropic_max),
            filter3: spec_filter_method(text_view(cli.filter3), anisotropic_max),
            anisotropic_max,
            examplename: cli.example,
            getid: match cli.get {
                Some(get) => get.id,
                None => None,
            },
            title: cli.title,
            andrun: match cli.get {
                Some(get) => get.run,
                None => false,
            },
            force_srgb_off: cli.force_srgb_off,
        }
    }

    /// Resolves a command line for a window of the given size.
    #[verifier::when_used_as_spec(spec_from_cli)]
    pub fn from_cli(width: T, height: T, cli: CliValues) -> (av: ArgValues<T>)
        ensures
            av == ArgValues::spec_from_cli(width, height, cli),
    {
        let anisotropic_max = anisotropic_level(&cli.anisotropic_max);
        let wrap0 = wrap_mode(&cli.wrap0);
        let wrap1 = wrap_mode(&cli.wrap1);
        let wrap2 = wrap_mode(&cli.wrap2);
        let wrap3 = wrap_mode(&cli.wrap3);
        let filter0 = filter_method(&cli.filter0, anisotropic_max);
        let filter1 = filter_method(&cli.filter1, anisotropic_max);
        let filter2 = filter_method(&cli.filter2, anisotropic_max);
        let filter3 = filter_method(&cli.filter3, anisotropic_max);
        let (getid, andrun) = match cli.get {
            Some(get) => (get.id, get.run),
            None => (None, false),
        };
        ArgValues {
            width,
            height,
            shaderpath: cli.shader,
            texture0path: cli.texture0,
            texture1path: cli.texture1,
            texture2path: cli.texture2,
            texture3path: cli.texture3,
            wrap0,
            wrap1,
            wrap2,
            wrap3,
            filter0,
            filter1,
            filter2,
            filter3,
            anisotropic_max,
            examplename: cli.example,
            getid,
            title: cli.title,
            andrun,
            force_srgb_off: cli.force_srgb_off,
        }
    }

    /// The window's title: the one that was asked for; or else the
    /// shader's name, which is its catalog identifier, its path or the name
    /// of the example, in this order, followed by the viewer's name; or,
    /// for the default program, the viewer's name alone.
    pub open spec fn spec_window_title(&self) -> Seq<char> {
        match (self.title, self.getid, self.shaderpath, self.examplename) {
            (Some(title), _, _, _) => title@,
            (None, Some(id), _, _) => id@ + " - shadertoy-rs"@,
            (None, None, Some(path), _) => path@ + " - shadertoy-rs"@,
            (None, None, None, Some(name)) => name@ + " - shadertoy-rs"@,
            (None, None, None, None) => "shadertoy-rs"@,
        }
    }

    /// The window's title.
    pub fn window_title(&self) -> (title: String)
        ensures
            title@ == self.spec_window_title(),
    {
        if let Some(title) = &self.title {
            title.clone()
        } else if let Some(id) = &self.getid {
            id.clone().concat(" - shadertoy-rs")
        } else if let Some(path) = &self.shaderpath {
            path.clone().concat(" - shadertoy-rs")
        } else if let Some(name) = &self.examplename {
            name.clone().concat(" - shadertoy-rs")
        } else {
            String::from_str("shadertoy-rs")
        }
    }
}

} // verus!

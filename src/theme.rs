use vstd::prelude::*;
use vstd::string::*;

verus! {

/// A theme: its name, palette, fonts, spacing and corner radii.
#[derive(Clone, Debug)]
pub struct ThemeConfig {
    pub name: String,
    pub colors: ThemeColors,
    pub fonts: ThemeFonts,
    pub spacing: ThemeSpacing,
    pub border_radius: ThemeBorderRadius,
}

/// A theme's palette, each colour written `#RRGGBB`.
#[derive(Clone, Debug)]
pub struct ThemeColors {
    pub primary: String,
    pub secondary: String,
    pub background: String,
    pub surface: String,
    pub text: String,
    pub text_secondary: String,
    pub error: String,
    pub success: String,
    pub warning: String,
    pub info: String,
}

#[derive(Clone, Debug)]
pub struct ThemeFonts {
    pub regular: String,
    pub bold: String,
    pub italic: String,
    pub size: FontSizes,
}

#[derive(Clone, Copy, Debug, PartialEq, Eq, Structural)]
pub struct FontSizes {
    pub small: u16,
    pub medium: u16,
    pub large: u16,
    pub xlarge: u16,
}

#[derive(Clone, Copy, Debug, PartialEq, Eq, Structural)]
pub struct ThemeSpacing {
    pub small: u16,
    pub medium: u16,
    pub large: u16,
    pub xlarge: u16,
}

#[derive(Clone, Copy, Debug, PartialEq, Eq, Structural)]
pub struct ThemeBorderRadius {
    pub small: u16,
    pub medium: u16,
    pub large: u16,
    pub round: u16,
}

/// Which theme to apply.
#[derive(Clone, Debug, PartialEq, Eq)]
pub enum ThemeType {
    Light,
    Dark,
    /// A theme loaded by name.
    Custom(String),
}

#[derive(Clone, Copy, Debug, PartialEq, Eq, Structural)]
pub enum ColorType {
    Primary,
    Secondary,
    Background,
    Surface,
    Text,
    TextSecondary,
    Error,
    Success,
    Warning,
    Info,
}

#[derive(Clone, Copy, Debug, PartialEq, Eq, Structural)]
pub enum SpacingType {
    Small,
    Medium,
    Large,
    XLarge,
}

#[derive(Clone, Copy, Debug, PartialEq, Eq, Structural)]
pub enum FontSizeType {
    Small,
    Medium,
    Large,
    XLarge,
}

#[derive(Clone, Copy, Debug, PartialEq, Eq, Structural)]
pub enum BorderRadiusType {
    Small,
    Medium,
    Large,
    Round,
}

/// A colour as three 8-bit channels.
#[derive(Clone, Copy, Debug, PartialEq, Eq, Structural)]
pub struct Rgb {
    pub r: u8,
    pub g: u8,
    pub b: u8,
}

/// The embedded light theme, as JSON.
pub const DEFAULT_THEME_JSON: &'static str = r##"{
  "name": "Default",
  "colors": {
    "primary": "#7957D5",
    "secondary": "#2B2D42",
    "background": "#FFFFFF",
    "text": "#2B2D42",
    "error": "#E63946",
    "success": "#2A9D8F",
    "warning": "#F4A261",
    "info": "#457B9D"
  },
  "fonts": {
    "regular": "Roboto-Regular",
    "bold": "Roboto-Bold",
    "italic": "Roboto-Italic",
    "size": {
      "small": 12,
      "medium": 16,
      "large": 20,
      "xlarge": 28
    }
  },
  "spacing": {
    "small": 5,
    "medium": 10,
    "large": 20,
    "xlarge": 40
  },
  "borderRadius": {
    "small": 3,
    "medium": 5,
    "large": 10,
    "round": 9999
  }
}"##;

/// The embedded dark theme, as JSON.
pub const DARK_THEME_JSON: &'static str = r##"{
  "name": "Dark",
  "colors": {
    "primary": "#A485FF",
    "secondary": "#6C63FF",
    "background": "#1A1B26",
    "surface": "#24283B",
    "text": "#C0CAF5",
    "textSecondary": "#565F89",
    "error": "#F7768E",
    "success": "#9ECE6A",
    "warning": "#E0AF68",
    "info": "#7AA2F7"
  },
  "fonts": {
    "regular": "Roboto-Regular",
    "bold": "Roboto-Bold",
    "italic": "Roboto-Italic",
    "size": {
      "small": 12,
      "medium": 16,
      "large": 20,
      "xlarge": 28
    }
  },
  "spacing": {
    "small": 5,
    "medium": 10,
    "large": 20,
    "xlarge": 40
  },
  "borderRadius": {
    "small": 3,
    "medium": 5,
    "large": 10,
    "round": 9999
  }
}"##;

/// The surface colour of a theme that names none.
pub fn default_surface_color() -> (r: String)
    ensures
        r@ == "#FFFFFF"@,
{
    String::from_str("#FFFFFF")
}

/// The secondary text colour of a theme that names none.
pub fn default_text_secondary_color() -> (r: String)
    ensures
        r@ == "#4A4A4A"@,
{
    String::from_str("#4A4A4A")
}

pub open spec fn is_standard_layout(c: ThemeConfig) -> bool {
    &&& c.fonts.regular@ == "Roboto-Regular"@
    &&& c.fonts.bold@ == "Roboto-Bold"@
    &&& c.fonts.italic@ == "Roboto-Italic"@
    &&& c.fonts.size == FontSizes { small: 12, medium: 16, large: 20, xlarge: 28 }
    &&& c.spacing == ThemeSpacing { small: 5, medium: 10, large: 20, xlarge: 40 }
    &&& c.border_radius == ThemeBorderRadius { small: 3, medium: 5, large: 10, round: 9999 }
}

/// `c` is the built-in light theme.
pub open spec fn is_default_light(c: ThemeConfig) -> bool {
    &&& c.name@ == "Default Light"@
    &&& c.colors.primary@ == "#7957D5"@
    &&& c.colors.secondary@ == "#2B2D42"@
    &&& c.colors.background@ == "#FFFFFF"@
    &&& c.colors.surface@ == "#F7F7F7"@
    &&& c.colors.text@ == "#2B2D42"@
    &&& c.colors.text_secondary@ == "#4A4A4A"@
    &&& c.colors.error@ == "#E63946"@
    &&& c.colors.success@ == "#2A9D8F"@
    &&& c.colors.warning@ == "#F4A261"@
    &&& c.colors.info@ == "#457B9D"@
    &&& is_standard_layout(c)
}

/// `c` is the built-in dark theme.
pub open spec fn is_default_dark(c: ThemeConfig) -> bool {
    &&& c.name@ == "Default Dark"@
    &&& c.colors.primary@ == "#A485FF"@
    &&& c.colors.secondary@ == "#6C63FF"@
    &&& c.colors.background@ == "#1A1B26"@
    &&& c.colors.surface@ == "#24283B"@
    &&& c.colors.text@ == "#C0CAF5"@
    &&& c.colors.text_secondary@ == "#565F89"@
    &&& c.colors.error@ == "#F7768E"@
    &&& c.colors.success@ == "#9ECE6A"@
    &&& c.colors.warning@ == "#E0AF68"@
    &&& c.colors.info@ == "#7AA2F7"@
    &&& is_standard_layout(c)
}

fn standard_fonts() -> (r: ThemeFonts)
    ensures
        r.regular@ == "Roboto-Regular"@,
        r.bold@ == "Roboto-Bold"@,
        r.italic@ == "Roboto-Italic"@,
        r.size == (FontSizes { small: 12, medium: 16, large: 20, xlarge: 28 }),
{
    ThemeFonts {
        regular: String::from_str("Roboto-Regular"),
        bold: String::from_str("Roboto-Bold"),
        italic: String::from_str("Roboto-Italic"),
        size: FontSizes { small: 12, medium: 16, large: 20, xlarge: 28 },
    }
}

/// The built-in light theme.
pub fn default_light_theme() -> (r: ThemeConfig)
    ensures
        is_default_light(r),
{
        ThemeConfig {
            name: String::from_str("Default Light"),
            colors: ThemeColors {
            primary: String::from_str("#7957D5"),
            secondary: String::from_str("#2B2D42"),
            background: String::from_str("#FFFFFF"),
            surface: String::from_str("#F7F7F7"),
            text: String::from_str("#2B2D42"),
            text_secondary: String::from_str("#4A4A4A"),
            error: String::from_str("#E63946"),
            success: String::from_str("#2A9D8F"),
            warning: String::from_str("#F4A261"),
            info: String::from_str("#457B9D"),
            },
            fonts: standard_fonts(),
            spacing: ThemeSpacing { small: 5, medium: 10, large: 20, xlarge: 40 },
            border_radius: ThemeBorderRadius { small: 3, medium: 5, large: 10, round: 9999 },
        }
}

/// The built-in dark theme.
pub fn default_dark_theme() -> (r: ThemeConfig)
    ensures
        is_default_dark(r),
{
        ThemeConfig {
            name: String::from_str("Default Dark"),
            colors: ThemeColors {
            primary: String::from_str("#A485FF"),
            secondary: String::from_str("#6C63FF"),
            background: String::from_str("#1A1B26"),
            surface: String::from_str("#24283B"),
            text: String::from_str("#C0CAF5"),
            text_secondary: String::from_str("#565F89"),
            error: String::from_str("#F7768E"),
            success: String::from_str("#9ECE6A"),
            warning: String::from_str("#E0AF68"),
            info: String::from_str("#7AA2F7"),
            },
            fonts: standard_fonts(),
            spacing: ThemeSpacing { small: 5, medium: 10, large: 20, xlarge: 40 },
            border_radius: ThemeBorderRadius { small: 3, medium: 5, large: 10, round: 9999 },
        }
}

/// The value of a hexadecimal digit.
pub open spec fn hex_digit(c: char) -> Option<u8> {
    let n = c as u32;
    if 48 <= n <= 57 {
        Some((n - 48) as u8)
    } else if 97 <= n <= 102 {
        Some((n - 87) as u8)
    } else if 65 <= n <= 70 {
        Some((n - 55) as u8)
    } else {
        None
    }
}

/// A two-character channel read as base-16 (an optional leading `+` is
/// allowed before a single digit); anything else reads as 0.
pub open spec fn channel_value(a: char, b: char) -> u8 {
    match (hex_digit(a), hex_digit(b)) {
        (Some(x), Some(y)) => (16 * x + y) as u8,
        (_, Some(y)) => if a == '+' {
            y
        } else {
            0
        },
        _ => 0,
    }
}

pub open spec fn is_ascii_char(c: char) -> bool {
    (c as u32) < 128
}

/// The index of the first character at or after `i` that is not `#`.
pub open spec fn skip_hashes(s: Seq<char>, i: int) -> int
    decreases s.len() - i,
{
    if 0 <= i < s.len() && s[i] == '#' {
        skip_hashes(s, i + 1)
    } else {
        i
    }
}

/// The colour a string `#RRGGBB` names. Leading `#`s are dropped; what is
/// left must be six ASCII characters, or the colour is black.
pub open spec fn color_of(s: Seq<char>) -> Rgb {
    let h = s.subrange(skip_hashes(s, 0), s.len() as int);
    if h.len() == 6 && forall|i: int| 0 <= i < 6 ==> #[trigger] is_ascii_char(h[i]) {
        Rgb {
            r: channel_value(h[0], h[1]),
            g: channel_value(h[2], h[3]),
            b: channel_value(h[4], h[5]),
        }
    } else {
        Rgb { r: 0, g: 0, b: 0 }
    }
}

fn digit_value(c: char) -> (r: Option<u8>)
    ensures
        r == hex_digit(c),
{
    let n = c as u32;
    if 48 <= n && n <= 57 {
        Some((n - 48) as u8)
    } else if 97 <= n && n <= 102 {
        Some((n - 87) as u8)
    } else if 65 <= n && n <= 70 {
        Some((n - 55) as u8)
    } else {
        None
    }
}

fn channel(a: char, b: char) -> (r: u8)
    ensures
        r == channel_value(a, b),
{
    match (digit_value(a), digit_value(b)) {
        (Some(x), Some(y)) => 16 * x + y,
        (_, Some(y)) => if a == '+' {
            y
        } else {
            0
        },
        _ => 0,
    }
}

proof fn lemma_skip_hashes_bounds(s: Seq<char>, i: int)
    requires
        0 <= i <= s.len(),
    ensures
        i <= skip_hashes(s, i) <= s.len(),
    decreases s.len() - i,
{
    if i < s.len() && s[i] == '#' {
        lemma_skip_hashes_bounds(s, i + 1);
    }
}

/// The colour that `hex` names (see `color_of`).
pub fn parse_hex_color(hex: &str) -> (r: Rgb)
    ensures
        r == color_of(hex@),
{
    let len = hex.unicode_len();
    let mut start: usize = 0;
    while start < len && hex.get_char(start) == '#'
        invariant
            len == hex@.len(),
            start <= len,
            skip_hashes(hex@, start as int) == skip_hashes(hex@, 0),
        decreases len - start,
    {
        start = start + 1;
    }
    proof {
        lemma_skip_hashes_bounds(hex@, 0);
        assert(skip_hashes(hex@, start as int) == start as int);
    }
    let ghost h = hex@.subrange(start as int, len as int);
    if len - start != 6 {
        return Rgb { r: 0, g: 0, b: 0 };
    }
    let mut k: usize = 0;
    while k < 6
        invariant
            len == hex@.len(),
            start + 6 == len,
            start == skip_hashes(hex@, 0),
            h == hex@.subrange(start as int, len as int),
            k <= 6,
            forall|i: int| 0 <= i < k ==> #[trigger] is_ascii_char(h[i]),
        decreases 6 - k,
    {
        if hex.get_char(start + k) as u32 >= 128 {
            assert(h[k as int] == hex@[start + k]);
            assert(!is_ascii_char(h[k as int]));
            return Rgb { r: 0, g: 0, b: 0 };
        }
        k = k + 1;
    }
    Rgb {
        r: channel(hex.get_char(start), hex.get_char(start + 1)),
        g: channel(hex.get_char(start + 2), hex.get_char(start + 3)),
        b: channel(hex.get_char(start + 4), hex.get_char(start + 5)),
    }
}

/// The theme a stored setting selects: "light", "dark", "system" (which
/// follows `system_prefers_dark`), or any other name as a custom theme.
pub fn get_current_theme(theme_setting: &str, system_prefers_dark: bool) -> (r: ThemeType)
    ensures
        theme_setting@ == "light"@ ==> r == ThemeType::Light,
        theme_setting@ == "dark"@ ==> r == ThemeType::Dark,
        theme_setting@ == "system"@ ==> r == if system_prefers_dark {
            ThemeType::Dark
        } else {
            ThemeType::Light
        },
        theme_setting@ != "light"@ && theme_setting@ != "dark"@ && theme_setting@ != "system"@
            ==> (r matches ThemeType::Custom(name) && name@ == theme_setting@),
{
    proof {
        reveal_strlit("light");
        reveal_strlit("dark");
        reveal_strlit("system");
        assert("dark"@.len() != "light"@.len());
        assert("system"@.len() != "light"@.len());
        assert("system"@.len() != "dark"@.len());
    }
    let s = String::from_str(theme_setting);
    if s == String::from_str("light") {
        ThemeType::Light
    } else if s == String::from_str("dark") {
        ThemeType::Dark
    } else if s == String::from_str("system") {
        if system_prefers_dark {
            ThemeType::Dark
        } else {
            ThemeType::Light
        }
    } else {
        ThemeType::Custom(s)
    }
}

/// The embedded theme stored under `path`, if any.
pub fn get_embedded_theme(path: &str) -> (r: Option<String>)
    ensures
        path@ == "themes/default.json"@ ==> (r matches Some(j) && j@ == DEFAULT_THEME_JSON@),
        path@ == "themes/dark.json"@ ==> (r matches Some(j) && j@ == DARK_THEME_JSON@),
        path@ != "themes/default.json"@ && path@ != "themes/dark.json"@ ==> r is None,
{
    proof {
        reveal_strlit("themes/default.json");
        reveal_strlit("themes/dark.json");
        assert("themes/default.json"@.len() != "themes/dark.json"@.len());
    }
    let p = String::from_str(path);
    if p == String::from_str("themes/default.json") {
        Some(String::from_str(DEFAULT_THEME_JSON))
    } else if p == String::from_str("themes/dark.json") {
        Some(String::from_str(DARK_THEME_JSON))
    } else {
        None
    }
}

/// Where a custom theme named `name` is looked for on disk.
pub fn theme_file_path(name: &str) -> (r: String)
    ensures
        r@ == "resources/themes/"@ + name@ + ".json"@,
{
    String::from_str("resources/themes/").concat(name).concat(".json")
}

/// Under which path a custom theme named `name` is looked for among the
/// embedded ones.
pub fn theme_resource_path(name: &str) -> (r: String)
    ensures
        r@ == "themes/"@ + name@ + ".json"@,
{
    String::from_str("themes/").concat(name).concat(".json")
}

/// The theme in use: whether it builds on the dark base, and its settings.
pub struct AppTheme {
    pub dark: bool,
    pub config: ThemeConfig,
}

pub open spec fn spec_color(c: ThemeColors, t: ColorType) -> Seq<char> {
    match t {
        ColorType::Primary => c.primary@,
        ColorType::Secondary => c.secondary@,
        ColorType::Background => c.background@,
        ColorType::Surface => c.surface@,
        ColorType::Text => c.text@,
        ColorType::TextSecondary => c.text_secondary@,
        ColorType::Error => c.error@,
        ColorType::Success => c.success@,
        ColorType::Warning => c.warning@,
        ColorType::Info => c.info@,
    }
}

impl AppTheme {
    /// The theme for `theme_type`. A custom theme uses `custom`, the
    /// settings loaded under its name, on the light base; when those could
    /// not be loaded it is the default light theme.
    pub fn new(theme_type: ThemeType, custom: Option<ThemeConfig>) -> (r: AppTheme)
        ensures
            theme_type == ThemeType::Light ==> !r.dark && is_default_light(r.config),
            theme_type == ThemeType::Dark ==> r.dark && is_default_dark(r.config),
            theme_type is Custom ==> !r.dark && match custom {
                Some(c) => r.config == c,
                None => is_default_light(r.config),
            },
    {
        match theme_type {
            ThemeType::Light => AppTheme { dark: false, config: default_light_theme() },
            ThemeType::Dark => AppTheme { dark: true, config: default_dark_theme() },
            ThemeType::Custom(_) => match custom {
                Some(c) => AppTheme { dark: false, config: c },
                None => AppTheme { dark: false, config: default_light_theme() },
            },
        }
    }

    /// The colour of the given role.
    pub fn get_color(&self, color_type: ColorType) -> (r: Rgb)
        ensures
            r == color_of(spec_color(self.config.colors, color_type)),
    {
        let c = &self.config.colors;
        match color_type {
            ColorType::Primary => parse_hex_color(c.primary.as_str()),
            ColorType::Secondary => parse_hex_color(c.secondary.as_str()),
            ColorType::Background => parse_hex_color(c.background.as_str()),
            ColorType::Surface => parse_hex_color(c.surface.as_str()),
            ColorType::Text => parse_hex_color(c.text.as_str()),
            ColorType::TextSecondary => parse_hex_color(c.text_secondary.as_str()),
            ColorType::Error => parse_hex_color(c.error.as_str()),
            ColorType::Success => parse_hex_color(c.success.as_str()),
            ColorType::Warning => parse_hex_color(c.warning.as_str()),
            ColorType::Info => parse_hex_color(c.info.as_str()),
        }
    }

    pub fn get_spacing(&self, spacing_type: SpacingType) -> (r: u16)
        ensures
            r == match spacing_type {
                SpacingType::Small => self.config.spacing.small,
                SpacingType::Medium => self.config.spacing.medium,
                SpacingType::Large => self.config.spacing.large,
                SpacingType::XLarge => self.config.spacing.xlarge,
            },
    {
        match spacing_type {
            SpacingType::Small => self.config.spacing.small,
            SpacingType::Medium => self.config.spacing.medium,
            SpacingType::Large => self.config.spacing.large,
            SpacingType::XLarge => self.config.spacing.xlarge,
        }
    }

    pub fn get_font_size(&self, size_type: FontSizeType) -> (r: u16)
        ensures
            r == match size_type {
                FontSizeType::Small => self.config.fonts.size.small,
                FontSizeType::Medium => self.config.fonts.size.medium,
                FontSizeType::Large => self.config.fonts.size.large,
                FontSizeType::XLarge => self.config.fonts.size.xlarge,
            },
    {
        match size_type {
            FontSizeType::Small => self.config.fonts.size.small,
            FontSizeType::Medium => self.config.fonts.size.medium,
            FontSizeType::Large => self.config.fonts.size.large,
            FontSizeType::XLarge => self.config.fonts.size.xlarge,
        }
    }

    pub fn get_border_radius(&self, radius_type: BorderRadiusType) -> (r: u16)
        ensures
            r == match radius_type {
                BorderRadiusType::Small => self.config.border_radius.small,
                BorderRadiusType::Medium => self.config.border_radius.medium,
                BorderRadiusType::Large => self.config.border_radius.large,
                BorderRadiusType::Round => self.config.border_radius.round,
            },
    {
        match radius_type {
            BorderRadiusType::Small => self.config.border_radius.small,
            BorderRadiusType::Medium => self.config.border_radius.medium,
            BorderRadiusType::Large => self.config.border_radius.large,
            BorderRadiusType::Round => self.config.border_radius.round,
        }
    }
}

/// The theme for `theme_type` (see `AppTheme::new`).
pub fn apply_theme(theme_type: ThemeType, custom: Option<ThemeConfig>) -> (r: AppTheme)
    ensures
        theme_type == ThemeType::Light ==> !r.dark && is_default_light(r.config),
        theme_type == ThemeType::Dark ==> r.dark && is_default_dark(r.config),
        theme_type is Custom ==> !r.dark && match custom {
            Some(c) => r.config == c,
            None => is_default_light(r.config),
        },
{
    AppTheme::new(theme_type, custom)
}

/// The default light theme.
pub fn default_theme() -> (r: AppTheme)
    ensures
        !r.dark,
        is_default_light(r.config),
{
    apply_theme(ThemeType::Light, None)
}

} // verus!

//! Names of the colour themes and the shades of a palette.

use vstd::prelude::*;

verus! {

/// The theme presets, dark ones first.
#[derive(Debug, Clone, Copy, PartialEq, Eq, Hash, Structural)]
pub enum ThemePreset {
    /// Modern dark theme, after GitHub Dark and VS Code.
    Dark,
    /// Deep blue-black, for long coding sessions.
    DarkBlue,
    /// Purple-black with purple accents.
    DarkPurple,
    /// Blue-black like the deep sea.
    DeepOcean,
    /// Soft midnight blue.
    MidnightBlue,
    /// Dark with high contrast.
    DarkContrast,
    /// The classic One Dark.
    OneDark,
    /// Warm retro dark.
    GruvboxDark,
    /// Tokyo Night.
    TokyoNight,
    /// Nord, minimal and elegant.
    Nord,
    /// Dracula, vibrant.
    Dracula,
    /// Professional dark with warm accents.
    ImAuto,
    /// Modern light theme.
    Light,
    /// Fresh blue and white.
    LightBlue,
    /// Solarized Light.
    SolarizedLight,
    /// Light with high contrast.
    LightContrast,
    /// Catppuccin Latte.
    Catppuccin,
    /// Warm retro light.
    GruvboxLight,
    /// GitHub's classic light.
    GitHubLight,
}

impl ThemePreset {
    /// Every preset, in the order of the selection list: dark ones, then
    /// light ones.
    pub open spec fn spec_all() -> Seq<ThemePreset> {
        seq![
            ThemePreset::Dark,
            ThemePreset::DarkBlue,
            ThemePreset::DarkPurple,
            ThemePreset::DeepOcean,
            ThemePreset::MidnightBlue,
            ThemePreset::DarkContrast,
            ThemePreset::OneDark,
            ThemePreset::GruvboxDark,
            ThemePreset::TokyoNight,
            ThemePreset::Nord,
            ThemePreset::Dracula,
            ThemePreset::ImAuto,
            ThemePreset::Light,
            ThemePreset::LightBlue,
            ThemePreset::SolarizedLight,
            ThemePreset::LightContrast,
            ThemePreset::Catppuccin,
            ThemePreset::GruvboxLight,
            ThemePreset::GitHubLight,
        ]
    }

    /// The name shown for a preset.
    pub open spec fn spec_name(self) -> Seq<char> {
        match self {
            ThemePreset::Dark => "Modern Dark"@,
            ThemePreset::DarkBlue => "Dark Blue"@,
            ThemePreset::DarkPurple => "Dark Purple"@,
            ThemePreset::DeepOcean => "Deep Ocean"@,
            ThemePreset::MidnightBlue => "Midnight Blue"@,
            ThemePreset::DarkContrast => "High Contrast Dark"@,
            ThemePreset::OneDark => "One Dark"@,
            ThemePreset::GruvboxDark => "Gruvbox Dark"@,
            ThemePreset::TokyoNight => "Tokyo Night"@,
            ThemePreset::Nord => "Nord"@,
            ThemePreset::Dracula => "Dracula"@,
            ThemePreset::ImAuto => "ImAuto Professional"@,
            ThemePreset::Light => "Modern Light"@,
            ThemePreset::LightBlue => "Light Blue"@,
            ThemePreset::SolarizedLight => "Solarized Light"@,
            ThemePreset::LightContrast => "High Contrast Light"@,
            ThemePreset::Catppuccin => "Catppuccin Latte"@,
            ThemePreset::GruvboxLight => "Gruvbox Light"@,
            ThemePreset::GitHubLight => "GitHub Light"@,
        }
    }

    /// The description shown for a preset.
    pub open spec fn spec_description(self) -> Seq<char> {
        match self {
            ThemePreset::Dark => "现代暗色，灵感来自GitHub Dark和VS Code，平衡的蓝灰色调"@,
            ThemePreset::DarkBlue => "深邃蓝黑，适合长时间编码，舒适的蓝色主调减少眼疲劳"@,
            ThemePreset::DarkPurple => "优雅紫黑，神秘而专业，紫色点缀提升视觉层次"@,
            ThemePreset::DeepOcean => "深海蓝黑，沉稳大气，蓝色渐变营造深度感"@,
            ThemePreset::MidnightBlue => "午夜蓝黑，柔和不刺眼，暗蓝色背景更护眼"@,
            ThemePreset::DarkContrast => "高对比度暗色，文字极度清晰，适合弱视用户"@,
            ThemePreset::OneDark => "VS Code经典暗色，柔和的紫灰色调，广受开发者喜爱"@,
            ThemePreset::GruvboxDark => "复古暖色暗色，棕褐色调温暖舒适，长时间使用不疲劳"@,
            ThemePreset::TokyoNight => "东京夜景，流行的开发者主题，蓝紫色调时尚现代"@,
            ThemePreset::Nord => "北欧极简，冰川般的蓝灰色调，清爽优雅"@,
            ThemePreset::Dracula => "德古拉紫，鲜艳的紫粉色，个性张扬充满活力"@,
            ThemePreset::ImAuto => "专业深蓝，深蓝灰背景配暖黄点缀，商务专业"@,
            ThemePreset::Light => "现代亮色，柔和的灰白色调，阅读舒适"@,
            ThemePreset::LightBlue => "清爽蓝白，天空般的蓝白色调，清新明快"@,
            ThemePreset::SolarizedLight => "Solarized经典护眼亮色，精心调配的暖色调"@,
            ThemePreset::LightContrast => "高对比度亮色，黑白分明，文字极度清晰"@,
            ThemePreset::Catppuccin => "拿铁柔和，温暖的奶油色调，柔和不刺眼"@,
            ThemePreset::GruvboxLight => "复古暖色亮色，米黄色调温暖舒适"@,
            ThemePreset::GitHubLight => "GitHub经典亮色，清爽的白底灰边，简洁专业"@,
        }
    }

    /// Every preset, each once, dark ones first.
    pub fn all() -> (r: &'static [ThemePreset])
        ensures
            r@ == Self::spec_all(),
    {
        let r: &'static [ThemePreset] = &[
            ThemePreset::Dark,
            ThemePreset::DarkBlue,
            ThemePreset::DarkPurple,
            ThemePreset::DeepOcean,
            ThemePreset::MidnightBlue,
            ThemePreset::DarkContrast,
            ThemePreset::OneDark,
            ThemePreset::GruvboxDark,
            ThemePreset::TokyoNight,
            ThemePreset::Nord,
            ThemePreset::Dracula,
            ThemePreset::ImAuto,
            ThemePreset::Light,
            ThemePreset::LightBlue,
            ThemePreset::SolarizedLight,
            ThemePreset::LightContrast,
            ThemePreset::Catppuccin,
            ThemePreset::GruvboxLight,
            ThemePreset::GitHubLight,
        ];
        r
    }

    /// The name shown for the preset.
    pub fn name(&self) -> (r: &'static str)
        ensures
            r@ == self.spec_name(),
    {
        match self {
            ThemePreset::Dark => "Modern Dark",
            ThemePreset::DarkBlue => "Dark Blue",
            ThemePreset::DarkPurple => "Dark Purple",
            ThemePreset::DeepOcean => "Deep Ocean",
            ThemePreset::MidnightBlue => "Midnight Blue",
            ThemePreset::DarkContrast => "High Contrast Dark",
            ThemePreset::OneDark => "One Dark",
            ThemePreset::GruvboxDark => "Gruvbox Dark",
            ThemePreset::TokyoNight => "Tokyo Night",
            ThemePreset::Nord => "Nord",
            ThemePreset::Dracula => "Dracula",
            ThemePreset::ImAuto => "ImAuto Professional",
            ThemePreset::Light => "Modern Light",
            ThemePreset::LightBlue => "Light Blue",
            ThemePreset::SolarizedLight => "Solarized Light",
            ThemePreset::LightContrast => "High Contrast Light",
            ThemePreset::Catppuccin => "Catppuccin Latte",
            ThemePreset::GruvboxLight => "Gruvbox Light",
            ThemePreset::GitHubLight => "GitHub Light",
        }
    }

    /// The description shown for the preset.
    pub fn description(&self) -> (r: &'static str)
        ensures
            r@ == self.spec_description(),
    {
        match self {
            ThemePreset::Dark => "现代暗色，灵感来自GitHub Dark和VS Code，平衡的蓝灰色调",
            ThemePreset::DarkBlue => "深邃蓝黑，适合长时间编码，舒适的蓝色主调减少眼疲劳",
            ThemePreset::DarkPurple => "优雅紫黑，神秘而专业，紫色点缀提升视觉层次",
            ThemePreset::DeepOcean => "深海蓝黑，沉稳大气，蓝色渐变营造深度感",
            ThemePreset::MidnightBlue => "午夜蓝黑，柔和不刺眼，暗蓝色背景更护眼",
            ThemePreset::DarkContrast => "高对比度暗色，文字极度清晰，适合弱视用户",
            ThemePreset::OneDark => "VS Code经典暗色，柔和的紫灰色调，广受开发者喜爱",
            ThemePreset::GruvboxDark => "复古暖色暗色，棕褐色调温暖舒适，长时间使用不疲劳",
            ThemePreset::TokyoNight => "东京夜景，流行的开发者主题，蓝紫色调时尚现代",
            ThemePreset::Nord => "北欧极简，冰川般的蓝灰色调，清爽优雅",
            ThemePreset::Dracula => "德古拉紫，鲜艳的紫粉色，个性张扬充满活力",
            ThemePreset::ImAuto => "专业深蓝，深蓝灰背景配暖黄点缀，商务专业",
            ThemePreset::Light => "现代亮色，柔和的灰白色调，阅读舒适",
            ThemePreset::LightBlue => "清爽蓝白，天空般的蓝白色调，清新明快",
            ThemePreset::SolarizedLight => "Solarized经典护眼亮色，精心调配的暖色调",
            ThemePreset::LightContrast => "高对比度亮色，黑白分明，文字极度清晰",
            ThemePreset::Catppuccin => "拿铁柔和，温暖的奶油色调，柔和不刺眼",
            ThemePreset::GruvboxLight => "复古暖色亮色，米黄色调温暖舒适",
            ThemePreset::GitHubLight => "GitHub经典亮色，清爽的白底灰边，简洁专业",
        }
    }
}

/// Every preset stands in the list of all presets, and only once.
pub proof fn lemma_all_presets_listed(preset: ThemePreset)
    ensures
        ThemePreset::spec_all().contains(preset),
        ThemePreset::spec_all().no_duplicates(),
{
    let all = ThemePreset::spec_all();
    let i: int = match preset {
        ThemePreset::Dark => 0,
        ThemePreset::DarkBlue => 1,
        ThemePreset::DarkPurple => 2,
        ThemePreset::DeepOcean => 3,
        ThemePreset::MidnightBlue => 4,
        ThemePreset::DarkContrast => 5,
        ThemePreset::OneDark => 6,
        ThemePreset::GruvboxDark => 7,
        ThemePreset::TokyoNight => 8,
        ThemePreset::Nord => 9,
        ThemePreset::Dracula => 10,
        ThemePreset::ImAuto => 11,
        ThemePreset::Light => 12,
        ThemePreset::LightBlue => 13,
        ThemePreset::SolarizedLight => 14,
        ThemePreset::LightContrast => 15,
        ThemePreset::Catppuccin => 16,
        ThemePreset::GruvboxLight => 17,
        ThemePreset::GitHubLight => 18,
    };
}

/// The named styles.
#[derive(Debug, Clone, Copy, PartialEq, Eq, Structural)]
pub enum ThemeName {
    /// Modern dark theme.
    ModernDark,
    /// Nord dark theme.
    Nord,
    /// Dracula dark theme.
    Dracula,
    /// Tokyo Night dark theme.
    TokyoNight,
    /// One Dark theme.
    OneDark,
    /// Pure black with high contrast.
    DeepBlack,
    /// Cyberpunk neon theme.
    Cyberpunk,
    /// Matrix green theme.
    Matrix,
    /// Monokai Pro theme.
    Monokai,
    /// Ayu dark theme.
    AyuDark,
    /// Modern light theme.
    ModernLight,
    /// GitHub light theme.
    GitHubLight,
    /// Solarized light theme.
    SolarizedLight,
    /// Catppuccin light theme.
    Catppuccin,
    /// Gruvbox light theme.
    GruvboxLight,
}

impl ThemeName {
    /// The name shown for a style.
    pub open spec fn spec_display_name(self) -> Seq<char> {
        match self {
            ThemeName::ModernDark => "Modern Dark"@,
            ThemeName::Nord => "Nord"@,
            ThemeName::Dracula => "Dracula"@,
            ThemeName::TokyoNight => "Tokyo Night"@,
            ThemeName::OneDark => "One Dark"@,
            ThemeName::DeepBlack => "Deep Black"@,
            ThemeName::Cyberpunk => "Cyberpunk"@,
            ThemeName::Matrix => "Matrix"@,
            ThemeName::Monokai => "Monokai"@,
            ThemeName::AyuDark => "Ayu Dark"@,
            ThemeName::ModernLight => "Modern Light"@,
            ThemeName::GitHubLight => "GitHub Light"@,
            ThemeName::SolarizedLight => "Solarized Light"@,
            ThemeName::Catppuccin => "Catppuccin"@,
            ThemeName::GruvboxLight => "Gruvbox Light"@,
        }
    }

    /// The description shown for a style.
    pub open spec fn spec_description(self) -> Seq<char> {
        match self {
            ThemeName::ModernDark => "现代化暗色主题，通用且专业"@,
            ThemeName::Nord => "北欧极简风格，冷色调护眼"@,
            ThemeName::Dracula => "高对比度暗色，色彩丰富"@,
            ThemeName::TokyoNight => "东京夜意境，渐变蓝色调"@,
            ThemeName::OneDark => "VS Code 经典主题"@,
            ThemeName::DeepBlack => "纯黑背景超白文字，极高对比度"@,
            ThemeName::Cyberpunk => "赛博朋克霓虹粉蓝，未来科技感"@,
            ThemeName::Matrix => "黑客帝国矩阵绿，科技极客风"@,
            ThemeName::Monokai => "Monokai Pro 专业暖色调"@,
            ThemeName::AyuDark => "Ayu Modern 橙蓝对比，现代简约"@,
            ThemeName::ModernLight => "现代化亮色主题，清新明亮"@,
            ThemeName::GitHubLight => "GitHub 官方亮色风格"@,
            ThemeName::SolarizedLight => "Solarized 护眼亮色"@,
            ThemeName::Catppuccin => "Catppuccin 柔和色调"@,
            ThemeName::GruvboxLight => "复古暖色调亮色"@,
        }
    }

    /// Whether a style is dark: all but the five light ones.
    pub open spec fn spec_is_dark(self) -> bool {
        !(self is ModernLight || self is GitHubLight || self is SolarizedLight
            || self is Catppuccin || self is GruvboxLight)
    }

    /// The name shown for the style.
    pub fn display_name(self) -> (r: &'static str)
        ensures
            r@ == self.spec_display_name(),
    {
        match self {
            ThemeName::ModernDark => "Modern Dark",
            ThemeName::Nord => "Nord",
            ThemeName::Dracula => "Dracula",
            ThemeName::TokyoNight => "Tokyo Night",
            ThemeName::OneDark => "One Dark",
            ThemeName::DeepBlack => "Deep Black",
            ThemeName::Cyberpunk => "Cyberpunk",
            ThemeName::Matrix => "Matrix",
            ThemeName::Monokai => "Monokai",
            ThemeName::AyuDark => "Ayu Dark",
            ThemeName::ModernLight => "Modern Light",
            ThemeName::GitHubLight => "GitHub Light",
            ThemeName::SolarizedLight => "Solarized Light",
            ThemeName::Catppuccin => "Catppuccin",
            ThemeName::GruvboxLight => "Gruvbox Light",
        }
    }

    /// The description shown for the style.
    pub fn description(self) -> (r: &'static str)
        ensures
            r@ == self.spec_description(),
    {
        match self {
            ThemeName::ModernDark => "现代化暗色主题，通用且专业",
            ThemeName::Nord => "北欧极简风格，冷色调护眼",
            ThemeName::Dracula => "高对比度暗色，色彩丰富",
            ThemeName::TokyoNight => "东京夜意境，渐变蓝色调",
            ThemeName::OneDark => "VS Code 经典主题",
            ThemeName::DeepBlack => "纯黑背景超白文字，极高对比度",
            ThemeName::Cyberpunk => "赛博朋克霓虹粉蓝，未来科技感",
            ThemeName::Matrix => "黑客帝国矩阵绿，科技极客风",
            ThemeName::Monokai => "Monokai Pro 专业暖色调",
            ThemeName::AyuDark => "Ayu Modern 橙蓝对比，现代简约",
            ThemeName::ModernLight => "现代化亮色主题，清新明亮",
            ThemeName::GitHubLight => "GitHub 官方亮色风格",
            ThemeName::SolarizedLight => "Solarized 护眼亮色",
            ThemeName::Catppuccin => "Catppuccin 柔和色调",
            ThemeName::GruvboxLight => "复古暖色调亮色",
        }
    }

    /// Whether the style is dark.
    pub fn is_dark(self) -> (r: bool)
        ensures
            r == self.spec_is_dark(),
    {
        match self {
            ThemeName::ModernDark
            | ThemeName::Nord
            | ThemeName::Dracula
            | ThemeName::TokyoNight
            | ThemeName::OneDark
            | ThemeName::DeepBlack
            | ThemeName::Cyberpunk
            | ThemeName::Matrix
            | ThemeName::Monokai
            | ThemeName::AyuDark => true,
            _ => false,
        }
    }
}

/// Intensity of a colour within a palette, from lightest to darkest.
#[derive(Debug, Clone, Copy, PartialEq, Eq, Hash, Structural)]
pub enum Shade {
    S50,
    S100,
    S200,
    S300,
    S400,
    S500,
    S600,
    S700,
    S800,
    S900,
}

impl Shade {
    /// The place of a shade in a palette's row of ten colours.
    pub open spec fn spec_index(self) -> int {
        match self {
            Shade::S50 => 0,
            Shade::S100 => 1,
            Shade::S200 => 2,
            Shade::S300 => 3,
            Shade::S400 => 4,
            Shade::S500 => 5,
            Shade::S600 => 6,
            Shade::S700 => 7,
            Shade::S800 => 8,
            Shade::S900 => 9,
        }
    }

    /// The place of the shade in a palette's row of ten colours.
    pub fn index(self) -> (r: usize)
        ensures
            r == self.spec_index(),
            r < 10,
    {
        match self {
            Shade::S50 => 0,
            Shade::S100 => 1,
            Shade::S200 => 2,
            Shade::S300 => 3,
            Shade::S400 => 4,
            Shade::S500 => 5,
            Shade::S600 => 6,
            Shade::S700 => 7,
            Shade::S800 => 8,
            Shade::S900 => 9,
        }
    }
}

} // verus!

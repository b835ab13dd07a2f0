//! Display state: the two built-in themes and the extra colour schemes.

use vstd::prelude::*;

verus! {

/// The two built-in themes.
#[derive(Clone, Copy, Debug, PartialEq, Eq, Hash, Structural)]
pub enum Mode {
    /// Dark theme.
    Night,
    /// Light theme.
    Day,
}

/// The theme that a toggle switches to.
pub open spec fn toggled(mode: Mode) -> Mode {
    if mode == Mode::Day {
        Mode::Night
    } else {
        Mode::Day
    }
}

impl Mode {
    /// Switches between the day and the night theme.
    pub fn toggle(self) -> (next: Mode)
        ensures
            next == toggled(self),
    {
        match self {
            Mode::Day => Mode::Night,
            Mode::Night => Mode::Day,
        }
    }
}

/// A colour, by its red, green and blue parts.
#[derive(Clone, Copy, Debug, PartialEq, Eq, Hash, Structural)]
pub struct Rgb {
    pub r: u8,
    pub g: u8,
    pub b: u8,
}

/// The sum of the three parts of a colour: the larger, the lighter.
pub open spec fn lightness(color: Rgb) -> int {
    color.r + color.g + color.b
}

/// The colours of a scheme.
#[derive(Clone, Copy, Debug, PartialEq, Eq, Hash, Structural)]
pub struct Palette {
    /// Main colour: background, hovered buttons, active tab.
    pub primary: Rgb,
    /// Secondary colour: incoming connections, header, footer, borders of
    /// buttons, selected radio.
    pub secondary: Rgb,
    /// Colour of buttons that are not hovered and of inactive tabs.
    pub buttons: Rgb,
    /// Colour of outgoing connections.
    pub outgoing: Rgb,
    /// Colour of the text of header and footer.
    pub text_headers: Rgb,
    /// Colour of the text of body and buttons.
    pub text_body: Rgb,
}

/// What a scheme adds to its palette. Every opacity is in hundredths: 100
/// is opaque.
#[derive(Clone, Copy, Debug, PartialEq, Eq, Hash, Structural)]
pub struct PaletteExtension {
    /// Colour of the star of favorites.
    pub starred: Rgb,
    /// Opacity of the star of favorites.
    pub starred_alpha: u8,
    /// Opacity of the badge of the chart.
    pub chart_badge_alpha: u8,
    /// Opacity of round borders.
    pub round_borders_alpha: u8,
    /// Opacity of round containers.
    pub round_containers_alpha: u8,
}

/// A colour scheme: its palette and what it adds to it.
#[derive(Clone, Copy, Debug, PartialEq, Eq, Hash, Structural)]
pub struct CustomPalette {
    palette: Palette,
    extension: PaletteExtension,
}

impl CustomPalette {
    /// The palette of the scheme.
    pub closed spec fn spec_palette(self) -> Palette {
        self.palette
    }

    /// What the scheme adds to its palette.
    pub closed spec fn spec_extension(self) -> PaletteExtension {
        self.extension
    }

    /// The palette of the scheme.
    pub fn palette(&self) -> (palette: Palette)
        ensures
            palette == self.spec_palette(),
    {
        self.palette
    }

    /// What the scheme adds to its palette.
    pub fn extension(&self) -> (extension: PaletteExtension)
        ensures
            extension == self.spec_extension(),
    {
        self.extension
    }
}

/// The extra colour schemes.
#[derive(Clone, Copy, Debug, Hash, PartialEq, Eq, Structural)]
pub enum ExtraStyles {
    Dracula,
    GruvboxDark,
    GruvboxLight,
    NordLight,
    NordDark,
    SolarizedDark,
    SolarizedLight,
}

/// The colour with the given parts.
pub open spec fn rgb(r: u8, g: u8, b: u8) -> Rgb {
    Rgb { r, g, b }
}

/// The palette of each scheme.
pub open spec fn palette_of(style: ExtraStyles) -> Palette {
    match style {
        ExtraStyles::Dracula => Palette {
            primary: rgb(0x28, 0x2a, 0x36),
            secondary: rgb(0xff, 0x79, 0xc6),
            buttons: rgb(0x62, 0x72, 0xa4),
            outgoing: rgb(0x8b, 0xe9, 0xfd),
            text_headers: rgb(0x28, 0x2a, 0x36),
            text_body: rgb(0xf8, 0xf8, 0xf2),
        },
        ExtraStyles::GruvboxDark => Palette {
            primary: rgb(0x28, 0x28, 0x28),
            secondary: rgb(0xfe, 0x80, 0x19),
            buttons: rgb(0x3c, 0x38, 0x36),
            outgoing: rgb(0x8e, 0xc0, 0x7c),
            text_headers: rgb(0x1d, 0x20, 0x21),
            text_body: rgb(0xeb, 0xdb, 0xb2),
        },
        ExtraStyles::GruvboxLight => Palette {
            primary: rgb(0xfb, 0xf1, 0xc7),
            secondary: rgb(0xd6, 0x5d, 0x0e),
            buttons: rgb(0xd5, 0xc4, 0xa1),
            outgoing: rgb(0x68, 0x9d, 0x6a),
            text_headers: rgb(0xf9, 0xf5, 0xd7),
            text_body: rgb(0x28, 0x28, 0x28),
        },
        ExtraStyles::NordLight => Palette {
            primary: rgb(0xec, 0xef, 0xf4),
            secondary: rgb(0x5e, 0x81, 0xac),
            buttons: rgb(0x8f, 0xbc, 0xbb),
            outgoing: rgb(0xb4, 0x8e, 0xad),
            text_headers: rgb(0x2e, 0x34, 0x40),
            text_body: rgb(0x2e, 0x34, 0x40),
        },
        ExtraStyles::NordDark => Palette {
            primary: rgb(0x2e, 0x34, 0x40),
            secondary: rgb(0x88, 0xc0, 0xd0),
            buttons: rgb(0x4c, 0x56, 0x6a),
            outgoing: rgb(0xb4, 0x8e, 0xad),
            text_headers: rgb(0x2e, 0x34, 0x40),
            text_body: rgb(0xec, 0xef, 0xf4),
        },
        ExtraStyles::SolarizedDark => Palette {
            primary: rgb(0x00, 0x2b, 0x36),
            secondary: rgb(0x85, 0x99, 0x00),
            buttons: rgb(0x58, 0x6e, 0x75),
            outgoing: rgb(0x26, 0x8b, 0xd2),
            text_headers: rgb(0x00, 0x2b, 0x36),
            text_body: rgb(0xee, 0xe8, 0xd5),
        },
        ExtraStyles::SolarizedLight => Palette {
            primary: rgb(0xfd, 0xf6, 0xe3),
            secondary: rgb(0x85, 0x99, 0x00),
            buttons: rgb(0x93, 0xa1, 0xa1),
            outgoing: rgb(0x26, 0x8b, 0xd2),
            text_headers: rgb(0xfd, 0xf6, 0xe3),
            text_body: rgb(0x00, 0x2b, 0x36),
        },
    }
}

/// What each scheme adds to its palette.
pub open spec fn extension_of(style: ExtraStyles) -> PaletteExtension {
    match style {
        ExtraStyles::Dracula => PaletteExtension {
            starred: rgb(0xf1, 0xfa, 0x8c),
            starred_alpha: 70,
            chart_badge_alpha: 15,
            round_borders_alpha: 10,
            round_containers_alpha: 4,
        },
        ExtraStyles::GruvboxDark => PaletteExtension {
            starred: rgb(0xd7, 0x99, 0x21),
            starred_alpha: 80,
            chart_badge_alpha: 15,
            round_borders_alpha: 12,
            round_containers_alpha: 5,
        },
        ExtraStyles::GruvboxLight => PaletteExtension {
            starred: rgb(0xd7, 0x99, 0x21),
            starred_alpha: 90,
            chart_badge_alpha: 75,
            round_borders_alpha: 45,
            round_containers_alpha: 20,
        },
        ExtraStyles::NordLight => PaletteExtension {
            starred: rgb(0xeb, 0xcb, 0x8b),
            starred_alpha: 100,
            chart_badge_alpha: 60,
            round_borders_alpha: 35,
            round_containers_alpha: 15,
        },
        ExtraStyles::NordDark => PaletteExtension {
            starred: rgb(0xeb, 0xcb, 0x8b),
            starred_alpha: 100,
            chart_badge_alpha: 20,
            round_borders_alpha: 20,
            round_containers_alpha: 10,
        },
        ExtraStyles::SolarizedDark => PaletteExtension {
            starred: rgb(0xb5, 0x89, 0x00),
            starred_alpha: 100,
            chart_badge_alpha: 25,
            round_borders_alpha: 15,
            round_containers_alpha: 8,
        },
        ExtraStyles::SolarizedLight => PaletteExtension {
            starred: rgb(0xb5, 0x89, 0x00),
            starred_alpha: 90,
            chart_badge_alpha: 75,
            round_borders_alpha: 35,
            round_containers_alpha: 15,
        },
    }
}

/// Whether a scheme is a dark one.
pub open spec fn nightly(style: ExtraStyles) -> bool {
    match style {
        ExtraStyles::Dracula => true,
        ExtraStyles::GruvboxDark => true,
        ExtraStyles::NordDark => true,
        ExtraStyles::SolarizedDark => true,
        ExtraStyles::GruvboxLight => false,
        ExtraStyles::NordLight => false,
        ExtraStyles::SolarizedLight => false,
    }
}

/// Every scheme, in the order in which they are offered.
pub open spec fn every_style() -> Seq<ExtraStyles> {
    seq![
        ExtraStyles::Dracula,
        ExtraStyles::GruvboxDark,
        ExtraStyles::GruvboxLight,
        ExtraStyles::NordLight,
        ExtraStyles::NordDark,
        ExtraStyles::SolarizedDark,
        ExtraStyles::SolarizedLight,
    ]
}

/// The name under which a scheme is shown.
pub open spec fn label_of(style: ExtraStyles) -> Seq<char> {
    match style {
        ExtraStyles::Dracula => "Dracula"@,
        ExtraStyles::GruvboxDark => "Gruvbox (Night)"@,
        ExtraStyles::GruvboxLight => "Gruvbox (Day)"@,
        ExtraStyles::NordLight => "Nord (Day)"@,
        ExtraStyles::NordDark => "Nord (Night)"@,
        ExtraStyles::SolarizedLight => "Solarized (Day)"@,
        ExtraStyles::SolarizedDark => "Solarized (Night)"@,
    }
}

/// A scheme is a dark one exactly when its background is darker than the text
/// of its body.
pub proof fn lemma_nightly_is_dark(style: ExtraStyles)
    ensures
        nightly(style) <==> lightness(palette_of(style).primary) < lightness(
            palette_of(style).text_body,
        ),
{
}

/// Every scheme is offered, and none twice.
pub proof fn lemma_every_style_once(style: ExtraStyles)
    ensures
        every_style().contains(style),
        every_style().no_duplicates(),
        every_style().len() == 7,
{
    let all = every_style();
    assert(all[0] == ExtraStyles::Dracula);
    assert(all[1] == ExtraStyles::GruvboxDark);
    assert(all[2] == ExtraStyles::GruvboxLight);
    assert(all[3] == ExtraStyles::NordLight);
    assert(all[4] == ExtraStyles::NordDark);
    assert(all[5] == ExtraStyles::SolarizedDark);
    assert(all[6] == ExtraStyles::SolarizedLight);
}

impl ExtraStyles {
    /// The scheme: its palette and what it adds to it.
    pub fn to_custom_palette(self) -> (scheme: CustomPalette)
        ensures
            scheme.spec_palette() == palette_of(self),
            scheme.spec_extension() == extension_of(self),
    {
        CustomPalette { palette: self.to_palette(), extension: self.to_ext() }
    }

    /// The palette of the scheme.
    pub fn to_palette(self) -> (palette: Palette)
        ensures
            palette == palette_of(self),
    {
        match self {
            ExtraStyles::Dracula => Palette {
                primary: Rgb { r: 0x28, g: 0x2a, b: 0x36 },
                secondary: Rgb { r: 0xff, g: 0x79, b: 0xc6 },
                buttons: Rgb { r: 0x62, g: 0x72, b: 0xa4 },
                outgoing: Rgb { r: 0x8b, g: 0xe9, b: 0xfd },
                text_headers: Rgb { r: 0x28, g: 0x2a, b: 0x36 },
                text_body: Rgb { r: 0xf8, g: 0xf8, b: 0xf2 },
            },
            ExtraStyles::GruvboxDark => Palette {
                primary: Rgb { r: 0x28, g: 0x28, b: 0x28 },
                secondary: Rgb { r: 0xfe, g: 0x80, b: 0x19 },
                buttons: Rgb { r: 0x3c, g: 0x38, b: 0x36 },
                outgoing: Rgb { r: 0x8e, g: 0xc0, b: 0x7c },
                text_headers: Rgb { r: 0x1d, g: 0x20, b: 0x21 },
                text_body: Rgb { r: 0xeb, g: 0xdb, b: 0xb2 },
            },
            ExtraStyles::GruvboxLight => Palette {
                primary: Rgb { r: 0xfb, g: 0xf1, b: 0xc7 },
                secondary: Rgb { r: 0xd6, g: 0x5d, b: 0x0e },
                buttons: Rgb { r: 0xd5, g: 0xc4, b: 0xa1 },
                outgoing: Rgb { r: 0x68, g: 0x9d, b: 0x6a },
                text_headers: Rgb { r: 0xf9, g: 0xf5, b: 0xd7 },
                text_body: Rgb { r: 0x28, g: 0x28, b: 0x28 },
            },
            ExtraStyles::NordLight => Palette {
                primary: Rgb { r: 0xec, g: 0xef, b: 0xf4 },
                secondary: Rgb { r: 0x5e, g: 0x81, b: 0xac },
                buttons: Rgb { r: 0x8f, g: 0xbc, b: 0xbb },
                outgoing: Rgb { r: 0xb4, g: 0x8e, b: 0xad },
                text_headers: Rgb { r: 0x2e, g: 0x34, b: 0x40 },
                text_body: Rgb { r: 0x2e, g: 0x34, b: 0x40 },
            },
            ExtraStyles::NordDark => Palette {
                primary: Rgb { r: 0x2e, g: 0x34, b: 0x40 },
                secondary: Rgb { r: 0x88, g: 0xc0, b: 0xd0 },
                buttons: Rgb { r: 0x4c, g: 0x56, b: 0x6a },
                outgoing: Rgb { r: 0xb4, g: 0x8e, b: 0xad },
                text_headers: Rgb { r: 0x2e, g: 0x34, b: 0x40 },
                text_body: Rgb { r: 0xec, g: 0xef, b: 0xf4 },
            },
            ExtraStyles::SolarizedDark => Palette {
                primary: Rgb { r: 0x00, g: 0x2b, b: 0x36 },
                secondary: Rgb { r: 0x85, g: 0x99, b: 0x00 },
                buttons: Rgb { r: 0x58, g: 0x6e, b: 0x75 },
                outgoing: Rgb { r: 0x26, g: 0x8b, b: 0xd2 },
                text_headers: Rgb { r: 0x00, g: 0x2b, b: 0x36 },
                text_body: Rgb { r: 0xee, g: 0xe8, b: 0xd5 },
            },
            ExtraStyles::SolarizedLight => Palette {
                primary: Rgb { r: 0xfd, g: 0xf6, b: 0xe3 },
                secondary: Rgb { r: 0x85, g: 0x99, b: 0x00 },
                buttons: Rgb { r: 0x93, g: 0xa1, b: 0xa1 },
                outgoing: Rgb { r: 0x26, g: 0x8b, b: 0xd2 },
                text_headers: Rgb { r: 0xfd, g: 0xf6, b: 0xe3 },
                text_body: Rgb { r: 0x00, g: 0x2b, b: 0x36 },
            },
        }
    }

    /// What the scheme adds to its palette.
    pub fn to_ext(self) -> (extension: PaletteExtension)
        ensures
            extension == extension_of(self),
    {
        match self {
            ExtraStyles::Dracula => PaletteExtension {
                starred: Rgb { r: 0xf1, g: 0xfa, b: 0x8c },
                starred_alpha: 70,
                chart_badge_alpha: 15,
                round_borders_alpha: 10,
                round_containers_alpha: 4,
            },
            ExtraStyles::GruvboxDark => PaletteExtension {
                starred: Rgb { r: 0xd7, g: 0x99, b: 0x21 },
                starred_alpha: 80,
                chart_badge_alpha: 15,
                round_borders_alpha: 12,
                round_containers_alpha: 5,
            },
            ExtraStyles::GruvboxLight => PaletteExtension {
                starred: Rgb { r: 0xd7, g: 0x99, b: 0x21 },
                starred_alpha: 90,
                chart_badge_alpha: 75,
                round_borders_alpha: 45,
                round_containers_alpha: 20,
            },
            ExtraStyles::NordLight => PaletteExtension {
                starred: Rgb { r: 0xeb, g: 0xcb, b: 0x8b },
                starred_alpha: 100,
                chart_badge_alpha: 60,
                round_borders_alpha: 35,
                round_containers_alpha: 15,
            },
            ExtraStyles::NordDark => PaletteExtension {
                starred: Rgb { r: 0xeb, g: 0xcb, b: 0x8b },
                starred_alpha: 100,
                chart_badge_alpha: 20,
                round_borders_alpha: 20,
                round_containers_alpha: 10,
            },
            ExtraStyles::SolarizedDark => PaletteExtension {
                starred: Rgb { r: 0xb5, g: 0x89, b: 0x00 },
                starred_alpha: 100,
                chart_badge_alpha: 25,
                round_borders_alpha: 15,
                round_containers_alpha: 8,
            },
            ExtraStyles::SolarizedLight => PaletteExtension {
                starred: Rgb { r: 0xb5, g: 0x89, b: 0x00 },
                starred_alpha: 90,
                chart_badge_alpha: 75,
                round_borders_alpha: 35,
                round_containers_alpha: 15,
            },
        }
    }

    /// Whether the scheme is a dark one.
    pub fn is_nightly(self) -> (dark: bool)
        ensures
            dark == nightly(self),
    {
        match self {
            ExtraStyles::Dracula
            | ExtraStyles::GruvboxDark
            | ExtraStyles::NordDark
            | ExtraStyles::SolarizedDark => true,
            ExtraStyles::GruvboxLight | ExtraStyles::NordLight | ExtraStyles::SolarizedLight => false,
        }
    }

    /// Every scheme, in the order in which they are offered.
    pub fn all_styles() -> (styles: &'static [ExtraStyles])
        ensures
            styles@ == every_style(),
    {
        &[
            ExtraStyles::Dracula,
            ExtraStyles::GruvboxDark,
            ExtraStyles::GruvboxLight,
            ExtraStyles::NordLight,
            ExtraStyles::NordDark,
            ExtraStyles::SolarizedDark,
            ExtraStyles::SolarizedLight,
        ]
    }

    /// The name under which the scheme is shown.
    pub fn to_string(&self) -> (label: String)
        ensures
            label@ == label_of(*self),
    {
        match self {
            ExtraStyles::Dracula => "Dracula".to_owned(),
            ExtraStyles::GruvboxDark => "Gruvbox (Night)".to_owned(),
            ExtraStyles::GruvboxLight => "Gruvbox (Day)".to_owned(),
            ExtraStyles::NordLight => "Nord (Day)".to_owned(),
            ExtraStyles::NordDark => "Nord (Night)".to_owned(),
            ExtraStyles::SolarizedLight => "Solarized (Day)".to_owned(),
            ExtraStyles::SolarizedDark => "Solarized (Night)".to_owned(),
        }
    }
}

} // verus!

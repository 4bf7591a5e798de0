//! Color themes. Themes are simple palettes selected by name.

use vstd::prelude::*;
use crate::style::Color;
use crate::text::str_eq;

verus! {

/// A named color palette.
#[derive(Debug, Clone, Copy)]
pub struct Theme {
    pub name: &'static str,
    /// Primary accent (selected rows, active tab).
    pub accent: Color,
    /// Secondary accent (headers, labels).
    pub secondary: Color,
    /// Normal foreground text.
    pub fg: Color,
    /// Dimmed/help text.
    pub dim: Color,
    /// "Update available" / warning color.
    pub warn: Color,
    /// "Up to date" / success color.
    pub ok: Color,
    /// Error color.
    pub err: Color,
    /// Border color.
    pub border: Color,
}

/// A palette as mathematical values.
pub struct ThemeModel {
    pub name: Seq<char>,
    pub accent: Color,
    pub secondary: Color,
    pub fg: Color,
    pub dim: Color,
    pub warn: Color,
    pub ok: Color,
    pub err: Color,
    pub border: Color,
}

impl View for Theme {
    type V = ThemeModel;

    open spec fn view(&self) -> ThemeModel {
        ThemeModel {
            name: self.name@,
            accent: self.accent,
            secondary: self.secondary,
            fg: self.fg,
            dim: self.dim,
            warn: self.warn,
            ok: self.ok,
            err: self.err,
            border: self.border,
        }
    }
}

impl ThemeModel {
    pub open spec fn midnight() -> ThemeModel {
        ThemeModel {
            name: "midnight"@,
            accent: Color::Rgb(122, 162, 247),
            secondary: Color::Rgb(158, 206, 106),
            fg: Color::Rgb(192, 202, 245),
            dim: Color::Rgb(86, 95, 137),
            warn: Color::Rgb(224, 175, 104),
            ok: Color::Rgb(158, 206, 106),
            err: Color::Rgb(247, 118, 142),
            border: Color::Rgb(65, 72, 104),
        }
    }

    pub open spec fn solar() -> ThemeModel {
        ThemeModel {
            name: "solar"@,
            accent: Color::Rgb(38, 139, 210),
            secondary: Color::Rgb(133, 153, 0),
            fg: Color::Rgb(131, 148, 150),
            dim: Color::Rgb(88, 110, 117),
            warn: Color::Rgb(181, 137, 0),
            ok: Color::Rgb(133, 153, 0),
            err: Color::Rgb(220, 50, 47),
            border: Color::Rgb(88, 110, 117),
        }
    }

    pub open spec fn gruvbox() -> ThemeModel {
        ThemeModel {
            name: "gruvbox"@,
            accent: Color::Rgb(131, 165, 152),
            secondary: Color::Rgb(184, 187, 38),
            fg: Color::Rgb(235, 219, 178),
            dim: Color::Rgb(146, 131, 116),
            warn: Color::Rgb(250, 189, 47),
            ok: Color::Rgb(184, 187, 38),
            err: Color::Rgb(251, 73, 52),
            border: Color::Rgb(80, 73, 69),
        }
    }

    pub open spec fn mono() -> ThemeModel {
        ThemeModel {
            name: "mono"@,
            accent: Color::White,
            secondary: Color::Gray,
            fg: Color::Gray,
            dim: Color::DarkGray,
            warn: Color::White,
            ok: Color::Gray,
            err: Color::White,
            border: Color::DarkGray,
        }
    }

    /// The theme called `name`, or `midnight` where there is none.
    pub open spec fn named(name: Seq<char>) -> ThemeModel {
        if name == "solar"@ {
            ThemeModel::solar()
        } else if name == "gruvbox"@ {
            ThemeModel::gruvbox()
        } else if name == "mono"@ {
            ThemeModel::mono()
        } else {
            ThemeModel::midnight()
        }
    }

    /// All built-in themes, in cycle order.
    pub open spec fn names() -> Seq<Seq<char>> {
        seq!["midnight"@, "solar"@, "gruvbox"@, "mono"@]
    }

    /// The name behind `name` in cycle order; an unknown name counts as the first.
    pub open spec fn next_name(name: Seq<char>) -> Seq<char> {
        if name == "solar"@ {
            "gruvbox"@
        } else if name == "gruvbox"@ {
            "mono"@
        } else if name == "mono"@ {
            "midnight"@
        } else {
            "solar"@
        }
    }
}

impl Theme {
    /// All built-in themes, in cycle order.
    pub fn all() -> (r: Vec<&'static str>)
        ensures
            r@.len() == ThemeModel::names().len(),
            forall|i: int| 0 <= i < r@.len() ==> (#[trigger] r@[i])@ == ThemeModel::names()[i],
    {
        vec!["midnight", "solar", "gruvbox", "mono"]
    }

    /// Look up a theme by name, falling back to `midnight`.
    pub fn by_name(name: &str) -> (r: Theme)
        ensures
            r@ == ThemeModel::named(name@),
    {
        if str_eq(name, "solar") {
            Theme::solar()
        } else if str_eq(name, "gruvbox") {
            Theme::gruvbox()
        } else if str_eq(name, "mono") {
            Theme::mono()
        } else {
            Theme::midnight()
        }
    }

    /// Return the next theme name in cycle order.
    pub fn next(name: &str) -> (r: &'static str)
        ensures
            r@ == ThemeModel::next_name(name@),
    {
        if str_eq(name, "solar") {
            "gruvbox"
        } else if str_eq(name, "gruvbox") {
            "mono"
        } else if str_eq(name, "mono") {
            "midnight"
        } else {
            "solar"
        }
    }

    fn midnight() -> (r: Theme)
        ensures
            r@ == ThemeModel::midnight(),
    {
        Theme {
            name: "midnight",
            accent: Color::Rgb(122, 162, 247),
            secondary: Color::Rgb(158, 206, 106),
            fg: Color::Rgb(192, 202, 245),
            dim: Color::Rgb(86, 95, 137),
            warn: Color::Rgb(224, 175, 104),
            ok: Color::Rgb(158, 206, 106),
            err: Color::Rgb(247, 118, 142),
            border: Color::Rgb(65, 72, 104),
        }
    }

    fn solar() -> (r: Theme)
        ensures
            r@ == ThemeModel::solar(),
    {
        Theme {
            name: "solar",
            accent: Color::Rgb(38, 139, 210),
            secondary: Color::Rgb(133, 153, 0),
            fg: Color::Rgb(131, 148, 150),
            dim: Color::Rgb(88, 110, 117),
            warn: Color::Rgb(181, 137, 0),
            ok: Color::Rgb(133, 153, 0),
            err: Color::Rgb(220, 50, 47),
            border: Color::Rgb(88, 110, 117),
        }
    }

    fn gruvbox() -> (r: Theme)
        ensures
            r@ == ThemeModel::gruvbox(),
    {
        Theme {
            name: "gruvbox",
            accent: Color::Rgb(131, 165, 152),
            secondary: Color::Rgb(184, 187, 38),
            fg: Color::Rgb(235, 219, 178),
            dim: Color::Rgb(146, 131, 116),
            warn: Color::Rgb(250, 189, 47),
            ok: Color::Rgb(184, 187, 38),
            err: Color::Rgb(251, 73, 52),
            border: Color::Rgb(80, 73, 69),
        }
    }

    fn mono() -> (r: Theme)
        ensures
            r@ == ThemeModel::mono(),
    {
        Theme {
            name: "mono",
            accent: Color::White,
            secondary: Color::Gray,
            fg: Color::Gray,
            dim: Color::DarkGray,
            warn: Color::White,
            ok: Color::Gray,
            err: Color::White,
            border: Color::DarkGray,
        }
    }
}

/// The names of the built-in themes all differ.
proof fn lemma_names_differ()
    ensures
        "midnight"@ != "solar"@,
        "midnight"@ != "gruvbox"@,
        "midnight"@ != "mono"@,
        "solar"@ != "gruvbox"@,
        "solar"@ != "mono"@,
        "gruvbox"@ != "mono"@,
{
    reveal_strlit("midnight");
    reveal_strlit("solar");
    reveal_strlit("gruvbox");
    reveal_strlit("mono");
    assert("midnight"@.len() == 8);
    assert("solar"@.len() == 5);
    assert("gruvbox"@.len() == 7);
    assert("mono"@.len() == 4);
}

/// The next theme is always a built-in one, and looking it up gives the theme of that name.
pub proof fn law_next_theme_is_built_in(name: Seq<char>)
    ensures
        ThemeModel::names().contains(ThemeModel::next_name(name)),
        ThemeModel::named(ThemeModel::next_name(name)).name == ThemeModel::next_name(name),
{
    lemma_names_differ();
    let names = ThemeModel::names();
    assert(names[0] == "midnight"@ && names[1] == "solar"@ && names[2] == "gruvbox"@ && names[3]
        == "mono"@);
}

/// Cycling goes through all the themes: the one behind `names[i]` is `names[i + 1]`, and behind
/// the last comes the first.
pub proof fn law_themes_cycle(i: int)
    requires
        0 <= i < ThemeModel::names().len(),
    ensures
        ThemeModel::next_name(ThemeModel::names()[i]) == ThemeModel::names()[(i + 1)
            % ThemeModel::names().len() as int],
{
    lemma_names_differ();
    let names = ThemeModel::names();
    assert(names[0] == "midnight"@ && names[1] == "solar"@ && names[2] == "gruvbox"@ && names[3]
        == "mono"@);
    assert(i == 0 || i == 1 || i == 2 || i == 3);
}

/// A theme is found by its own name, and every other name means the first theme.
pub proof fn law_themes_are_found_by_name(name: Seq<char>)
    ensures
        name == "midnight"@ || name == "solar"@ || name == "gruvbox"@ || name == "mono"@
            ==> ThemeModel::named(name).name == name,
        name != "solar"@ && name != "gruvbox"@ && name != "mono"@ ==> ThemeModel::named(name).name
            == "midnight"@,
{
}

} // verus!

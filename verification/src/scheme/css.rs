//! A scheme written out as CSS custom properties, one declaration for each
//! color.

use crate::scheme::scheme::Scheme;
use crate::utils::string_utils::{hex_from_argb, hex_text};
use vstd::prelude::*;
use vstd::std_specs::iter::IteratorSpec;
use vstd::string::StringExecFns;

verus! {

/// The number of colors in a scheme.
pub const ROLES: usize = 33;

/// The name of the `index`-th color of a scheme, in the order in which a
/// scheme is written out.
pub open spec fn role_name(index: int) -> Seq<char> {
    if index == 0 {
        "primary"@
    } else if index == 1 {
        "on_primary"@
    } else if index == 2 {
        "primary_container"@
    } else if index == 3 {
        "on_primary_container"@
    } else if index == 4 {
        "secondary"@
    } else if index == 5 {
        "on_secondary"@
    } else if index == 6 {
        "secondary_container"@
    } else if index == 7 {
        "on_secondary_container"@
    } else if index == 8 {
        "tertiary"@
    } else if index == 9 {
        "on_tertiary"@
    } else if index == 10 {
        "tertiary_container"@
    } else if index == 11 {
        "on_tertiary_container"@
    } else if index == 12 {
        "error"@
    } else if index == 13 {
        "on_error"@
    } else if index == 14 {
        "error_container"@
    } else if index == 15 {
        "on_error_container"@
    } else if index == 16 {
        "surface_dim"@
    } else if index == 17 {
        "surface"@
    } else if index == 18 {
        "surface_bright"@
    } else if index == 19 {
        "surface_container_lowest"@
    } else if index == 20 {
        "surface_container_low"@
    } else if index == 21 {
        "surface_container"@
    } else if index == 22 {
        "surface_container_high"@
    } else if index == 23 {
        "surface_container_highest"@
    } else if index == 24 {
        "on_surface"@
    } else if index == 25 {
        "on_surface_variant"@
    } else if index == 26 {
        "outline"@
    } else if index == 27 {
        "outline_variant"@
    } else if index == 28 {
        "inverse_surface"@
    } else if index == 29 {
        "inverse_on_surface"@
    } else if index == 30 {
        "inverse_primary"@
    } else if index == 31 {
        "scrim"@
    } else {
        "shadow"@
    }
}

/// The `index`-th color of a scheme, in the order in which a scheme is
/// written out.
pub open spec fn role_color(scheme: Scheme, index: int) -> u32 {
    if index == 0 {
        scheme.primary
    } else if index == 1 {
        scheme.on_primary
    } else if index == 2 {
        scheme.primary_container
    } else if index == 3 {
        scheme.on_primary_container
    } else if index == 4 {
        scheme.secondary
    } else if index == 5 {
        scheme.on_secondary
    } else if index == 6 {
        scheme.secondary_container
    } else if index == 7 {
        scheme.on_secondary_container
    } else if index == 8 {
        scheme.tertiary
    } else if index == 9 {
        scheme.on_tertiary
    } else if index == 10 {
        scheme.tertiary_container
    } else if index == 11 {
        scheme.on_tertiary_container
    } else if index == 12 {
        scheme.error
    } else if index == 13 {
        scheme.on_error
    } else if index == 14 {
        scheme.error_container
    } else if index == 15 {
        scheme.on_error_container
    } else if index == 16 {
        scheme.surface_dim
    } else if index == 17 {
        scheme.surface
    } else if index == 18 {
        scheme.surface_bright
    } else if index == 19 {
        scheme.surface_container_lowest
    } else if index == 20 {
        scheme.surface_container_low
    } else if index == 21 {
        scheme.surface_container
    } else if index == 22 {
        scheme.surface_container_high
    } else if index == 23 {
        scheme.surface_container_highest
    } else if index == 24 {
        scheme.on_surface
    } else if index == 25 {
        scheme.on_surface_variant
    } else if index == 26 {
        scheme.outline
    } else if index == 27 {
        scheme.outline_variant
    } else if index == 28 {
        scheme.inverse_surface
    } else if index == 29 {
        scheme.inverse_on_surface
    } else if index == 30 {
        scheme.inverse_primary
    } else if index == 31 {
        scheme.scrim
    } else {
        scheme.shadow
    }
}

/// `name` with a hyphen in the place of each underscore.
pub open spec fn hyphenated(name: Seq<char>) -> Seq<char> {
    name.map_values(
        |c: char|
            if c == '_' {
                '-'
            } else {
                c
            },
    )
}

/// The declaration of one color: two spaces, then the property
/// `--prefix-name-suffix` with the name hyphenated, a colon and a space,
/// and the color as `#rrggbb` in double quotes, closed by a semicolon.
pub open spec fn declaration_text(
    prefix: Seq<char>,
    name: Seq<char>,
    suffix: Seq<char>,
    argb: int,
) -> Seq<char> {
    "  --"@ + prefix + "-"@ + hyphenated(name) + "-"@ + suffix + ": \""@ + hex_text(argb)
        + "\";"@
}

/// Appends `name` to `text`, with a hyphen for each underscore.
fn push_hyphenated(text: &mut String, name: &str)
    ensures
        final(text)@ == old(text)@ + hyphenated(name@),
{
    for c in it: name.chars()
        invariant
            it.seq() == name@,
            text@ == old(text)@ + hyphenated(name@.take(it.index())),
    {
        let ghost seen = name@.take(it.index());
        if c == '_' {
            text.push('-');
        } else {
            text.push(c);
        }
        assert(text@ =~= old(text)@ + hyphenated(name@.take(it.index() + 1))) by {
            assert(name@.take(it.index() + 1) =~= seen.push(c));
        }
    }
    assert(name@.take(name@.len() as int) =~= name@);
}

/// Writes the declaration of one color.
pub fn css_declaration(prefix: &str, name: &str, suffix: &str, argb: u32) -> (line: String)
    ensures
        line@ == declaration_text(prefix@, name@, suffix@, argb as int),
{
    let mut line = String::new();
    line.append("  --");
    line.append(prefix);
    line.append("-");
    push_hyphenated(&mut line, name);
    line.append("-");
    line.append(suffix);
    line.append(": \"");
    let hex = hex_from_argb(argb);
    line.append(hex.as_str());
    line.append("\";");
    assert(line@ =~= declaration_text(prefix@, name@, suffix@, argb as int));
    line
}

/// Writes a scheme out: the declarations of its colors, in order.
pub fn css_declarations(scheme: &Scheme, prefix: &str, suffix: &str) -> (lines: Vec<String>)
    ensures
        lines@.len() == ROLES,
        forall|i: int|
            0 <= i < ROLES ==> (#[trigger] lines@[i])@ == declaration_text(
                prefix@,
                role_name(i),
                suffix@,
                role_color(*scheme, i) as int,
            ),
{
    let mut lines: Vec<String> = Vec::new();
    lines.push(css_declaration(prefix, "primary", suffix, scheme.primary));
    lines.push(css_declaration(prefix, "on_primary", suffix, scheme.on_primary));
    lines.push(css_declaration(prefix, "primary_container", suffix, scheme.primary_container));
    lines.push(css_declaration(prefix, "on_primary_container", suffix, scheme.on_primary_container));
    lines.push(css_declaration(prefix, "secondary", suffix, scheme.secondary));
    lines.push(css_declaration(prefix, "on_secondary", suffix, scheme.on_secondary));
    lines.push(css_declaration(prefix, "secondary_container", suffix, scheme.secondary_container));
    lines.push(css_declaration(prefix, "on_secondary_container", suffix, scheme.on_secondary_container));
    lines.push(css_declaration(prefix, "tertiary", suffix, scheme.tertiary));
    lines.push(css_declaration(prefix, "on_tertiary", suffix, scheme.on_tertiary));
    lines.push(css_declaration(prefix, "tertiary_container", suffix, scheme.tertiary_container));
    lines.push(css_declaration(prefix, "on_tertiary_container", suffix, scheme.on_tertiary_container));
    lines.push(css_declaration(prefix, "error", suffix, scheme.error));
    lines.push(css_declaration(prefix, "on_error", suffix, scheme.on_error));
    lines.push(css_declaration(prefix, "error_container", suffix, scheme.error_container));
    lines.push(css_declaration(prefix, "on_error_container", suffix, scheme.on_error_container));
    lines.push(css_declaration(prefix, "surface_dim", suffix, scheme.surface_dim));
    lines.push(css_declaration(prefix, "surface", suffix, scheme.surface));
    lines.push(css_declaration(prefix, "surface_bright", suffix, scheme.surface_bright));
    lines.push(css_declaration(prefix, "surface_container_lowest", suffix, scheme.surface_container_lowest));
    lines.push(css_declaration(prefix, "surface_container_low", suffix, scheme.surface_container_low));
    lines.push(css_declaration(prefix, "surface_container", suffix, scheme.surface_container));
    lines.push(css_declaration(prefix, "surface_container_high", suffix, scheme.surface_container_high));
    lines.push(css_declaration(prefix, "surface_container_highest", suffix, scheme.surface_container_highest));
    lines.push(css_declaration(prefix, "on_surface", suffix, scheme.on_surface));
    lines.push(css_declaration(prefix, "on_surface_variant", suffix, scheme.on_surface_variant));
    lines.push(css_declaration(prefix, "outline", suffix, scheme.outline));
    lines.push(css_declaration(prefix, "outline_variant", suffix, scheme.outline_variant));
    lines.push(css_declaration(prefix, "inverse_surface", suffix, scheme.inverse_surface));
    lines.push(css_declaration(prefix, "inverse_on_surface", suffix, scheme.inverse_on_surface));
    lines.push(css_declaration(prefix, "inverse_primary", suffix, scheme.inverse_primary));
    lines.push(css_declaration(prefix, "scrim", suffix, scheme.scrim));
    lines.push(css_declaration(prefix, "shadow", suffix, scheme.shadow));
    lines
}

} // verus!

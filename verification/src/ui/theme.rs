//! The look of the UI, and overriding parts of it for a part of the UI and
//! restoring them afterwards.

use vstd::prelude::*;

use crate::color::Color;

use super::layout::{Padding, UiCoord};

verus! {

/// The override slot and theme value after applying the override: a set
/// override replaces the value and keeps the replaced one for restoring.
pub open spec fn spec_apply_override<T>(slot: Option<T>, value: T) -> (Option<T>, T) {
    match slot {
        Some(x) => (Some(value), x),
        None => (None, value),
    }
}

/// Apply the override in `slot` to the theme value `target`. Afterwards the
/// slot holds what restores the previous value when applied in turn.
pub fn apply_override<T>(slot: &mut Option<T>, target: &mut T)
    ensures
        (*final(slot), *final(target)) == spec_apply_override(*old(slot), *old(target)),
{
    if let Some(mut x) = slot.take() {
        std::mem::swap(target, &mut x);
        *slot = Some(x);
    }
}

/// Applying an override and then what it leaves in its slot restores both
/// the theme value and the override.
pub proof fn lemma_apply_override_reverts<T>(slot: Option<T>, value: T)
    ensures
        ({
            let (slot1, value1) = spec_apply_override(slot, value);
            spec_apply_override(slot1, value1) == (slot, value)
        }),
{
}

/// How a part of the UI is filled: a color, or an image of type `I`.
#[derive(Clone, Debug)]
pub enum ThemeEntry<I> {
    Color(Color),
    Image(I),
}

impl<I> From<Color> for ThemeEntry<I> {
    fn from(value: Color) -> (r: Self) {
        ThemeEntry::Color(value)
    }
}

impl<I> vstd::std_specs::convert::FromSpecImpl<Color> for ThemeEntry<I> {
    open spec fn obeys_from_spec() -> bool {
        true
    }

    open spec fn from_spec(v: Color) -> ThemeEntry<I> {
        ThemeEntry::Color(v)
    }
}

/// The look of the UI; images are of type `I`, the font of type `F`.
#[derive(Clone)]
pub struct Theme<I, F> {
    pub background: ThemeEntry<I>,
    pub window_background: ThemeEntry<I>,
    pub primary_color: Color,
    pub secondary_color: Color,
    pub button_default: ThemeEntry<I>,
    pub button_hovered: Option<ThemeEntry<I>>,
    pub button_pressed: Option<ThemeEntry<I>>,
    /// When unset, button text uses the primary color.
    pub button_text_color: Option<Color>,
    pub context_background: ThemeEntry<I>,
    pub drop_target_default: ThemeEntry<I>,
    pub drop_target_hovered: Option<ThemeEntry<I>>,
    pub text_padding: u16,
    pub font_size: u16,
    pub scroll_bar_size: u16,
    pub window_title_height: u8,
    pub font: F,
    pub window_padding: u8,
    pub padding: Padding,
}

/// The default theme's fill of color `rgba`.
pub open spec fn entry<I>(rgba: u32) -> ThemeEntry<I> {
    ThemeEntry::Color(Color(rgba))
}

impl<I, F: Default> Default for Theme<I, F> {
    fn default() -> (r: Self)
        ensures
            r.window_background == entry::<I>(0x0395d5ff),
            r.background == entry::<I>(0x04a5e5ff),
            r.context_background == entry::<I>(0x02a3e3ff),
            r.primary_color == Color(0xcdd6f4ff),
            r.secondary_color == Color(0x212224ff),
            r.button_default == entry::<I>(0x212224ff),
            r.button_hovered == Some(entry::<I>(0x45475aff)),
            r.button_pressed == Some(entry::<I>(0x585b70ff)),
            r.button_text_color is None,
            r.drop_target_default == entry::<I>(0),
            r.drop_target_hovered == Some(entry::<I>(0xcdd6f4ff)),
            r.text_padding == 5,
            r.font_size == 12,
            r.padding == (Padding {
                left: Some(UiCoord::Absolute(5)),
                right: Some(UiCoord::Absolute(5)),
                top: Some(UiCoord::Absolute(5)),
                bottom: Some(UiCoord::Absolute(5)),
            }),
            r.scroll_bar_size == 12,
            r.window_title_height == 24,
            r.window_padding == 4,
    {
        Theme {
            window_background: ThemeEntry::Color(Color::from_rgba(0x0395d5ff)),
            background: ThemeEntry::Color(Color::from_rgba(0x04a5e5ff)),
            context_background: ThemeEntry::Color(Color::from_rgba(0x02a3e3ff)),
            primary_color: Color::from_rgba(0xcdd6f4ff),
            secondary_color: Color::from_rgba(0x212224ff),
            button_default: ThemeEntry::Color(Color::from_rgba(0x212224ff)),
            button_hovered: Some(ThemeEntry::Color(Color::from_rgba(0x45475aff))),
            button_pressed: Some(ThemeEntry::Color(Color::from_rgba(0x585b70ff))),
            button_text_color: None,
            drop_target_default: ThemeEntry::Color(Color::from_rgba(0)),
            drop_target_hovered: Some(ThemeEntry::Color(Color::from_rgba(0xcdd6f4ff))),
            text_padding: 5,
            font_size: 12,
            padding: Padding::splat(UiCoord::Absolute(5)),
            scroll_bar_size: 12,
            window_title_height: 24,
            font: F::default(),
            window_padding: 4,
        }
    }
}

/// Values that replace those of a theme; unset fields leave the theme's.
pub struct ThemeOverride<I, F> {
    pub background: Option<ThemeEntry<I>>,
    pub window_background: Option<ThemeEntry<I>>,
    pub primary_color: Option<Color>,
    pub secondary_color: Option<Color>,
    pub button_default: Option<ThemeEntry<I>>,
    pub button_hovered: Option<Option<ThemeEntry<I>>>,
    pub button_pressed: Option<Option<ThemeEntry<I>>>,
    pub button_text_color: Option<Option<Color>>,
    pub context_background: Option<ThemeEntry<I>>,
    pub drop_target_default: Option<ThemeEntry<I>>,
    pub drop_target_hovered: Option<Option<ThemeEntry<I>>>,
    pub text_padding: Option<u16>,
    pub font_size: Option<u16>,
    pub scroll_bar_size: Option<u16>,
    pub window_title_height: Option<u8>,
    pub font: Option<F>,
    pub window_padding: Option<u8>,
    pub padding: Option<Padding>,
}

/// The override that changes nothing.
pub open spec fn spec_no_override<I, F>() -> ThemeOverride<I, F> {
    ThemeOverride {
        background: None,
        window_background: None,
        primary_color: None,
        secondary_color: None,
        button_default: None,
        button_hovered: None,
        button_pressed: None,
        button_text_color: None,
        context_background: None,
        drop_target_default: None,
        drop_target_hovered: None,
        text_padding: None,
        font_size: None,
        scroll_bar_size: None,
        window_title_height: None,
        font: None,
        window_padding: None,
        padding: None,
    }
}

impl<I, F> Default for ThemeOverride<I, F> {
    /// An override that changes nothing.
    fn default() -> (r: Self)
        ensures
            r == spec_no_override::<I, F>(),
    {
        ThemeOverride {
            background: None,
            window_background: None,
            primary_color: None,
            secondary_color: None,
            button_default: None,
            button_hovered: None,
            button_pressed: None,
            button_text_color: None,
            context_background: None,
            drop_target_default: None,
            drop_target_hovered: None,
            text_padding: None,
            font_size: None,
            scroll_bar_size: None,
            window_title_height: None,
            font: None,
            window_padding: None,
            padding: None,
        }
    }
}

/// The override and the theme after applying the override field by field.
pub open spec fn spec_apply_theme<I, F>(o: ThemeOverride<I, F>, t: Theme<I, F>) -> (
    ThemeOverride<I, F>,
    Theme<I, F>,
) {
    let background = spec_apply_override(o.background, t.background);
    let window_background = spec_apply_override(o.window_background, t.window_background);
    let primary_color = spec_apply_override(o.primary_color, t.primary_color);
    let secondary_color = spec_apply_override(o.secondary_color, t.secondary_color);
    let button_default = spec_apply_override(o.button_default, t.button_default);
    let button_hovered = spec_apply_override(o.button_hovered, t.button_hovered);
    let button_pressed = spec_apply_override(o.button_pressed, t.button_pressed);
    let button_text_color = spec_apply_override(o.button_text_color, t.button_text_color);
    let context_background = spec_apply_override(o.context_background, t.context_background);
    let drop_target_default = spec_apply_override(o.drop_target_default, t.drop_target_default);
    let drop_target_hovered = spec_apply_override(o.drop_target_hovered, t.drop_target_hovered);
    let text_padding = spec_apply_override(o.text_padding, t.text_padding);
    let font_size = spec_apply_override(o.font_size, t.font_size);
    let scroll_bar_size = spec_apply_override(o.scroll_bar_size, t.scroll_bar_size);
    let window_title_height = spec_apply_override(o.window_title_height, t.window_title_height);
    let font = spec_apply_override(o.font, t.font);
    let window_padding = spec_apply_override(o.window_padding, t.window_padding);
    let padding = spec_apply_override(o.padding, t.padding);
    (
        ThemeOverride {
            background: background.0,
            window_background: window_background.0,
            primary_color: primary_color.0,
            secondary_color: secondary_color.0,
            button_default: button_default.0,
            button_hovered: button_hovered.0,
            button_pressed: button_pressed.0,
            button_text_color: button_text_color.0,
            context_background: context_background.0,
            drop_target_default: drop_target_default.0,
            drop_target_hovered: drop_target_hovered.0,
            text_padding: text_padding.0,
            font_size: font_size.0,
            scroll_bar_size: scroll_bar_size.0,
            window_title_height: window_title_height.0,
            font: font.0,
            window_padding: window_padding.0,
            padding: padding.0,
        },
        Theme {
            background: background.1,
            window_background: window_background.1,
            primary_color: primary_color.1,
            secondary_color: secondary_color.1,
            button_default: button_default.1,
            button_hovered: button_hovered.1,
            button_pressed: button_pressed.1,
            button_text_color: button_text_color.1,
            context_background: context_background.1,
            drop_target_default: drop_target_default.1,
            drop_target_hovered: drop_target_hovered.1,
            text_padding: text_padding.1,
            font_size: font_size.1,
            scroll_bar_size: scroll_bar_size.1,
            window_title_height: window_title_height.1,
            font: font.1,
            window_padding: window_padding.1,
            padding: padding.1,
        },
    )
}

impl<I, F> ThemeOverride<I, F> {
    /// Apply the override to `theme`. The returned override reverts the
    /// effects of this apply.
    pub fn apply(self, theme: &mut Theme<I, F>) -> (r: Self)
        ensures
            (r, *final(theme)) == spec_apply_theme(self, *old(theme)),
    {
        let mut o = self;
        apply_override(&mut o.background, &mut theme.background);
        apply_override(&mut o.window_background, &mut theme.window_background);
        apply_override(&mut o.primary_color, &mut theme.primary_color);
        apply_override(&mut o.secondary_color, &mut theme.secondary_color);
        apply_override(&mut o.button_default, &mut theme.button_default);
        apply_override(&mut o.button_hovered, &mut theme.button_hovered);
        apply_override(&mut o.button_pressed, &mut theme.button_pressed);
        apply_override(&mut o.button_text_color, &mut theme.button_text_color);
        apply_override(&mut o.context_background, &mut theme.context_background);
        apply_override(&mut o.drop_target_default, &mut theme.drop_target_default);
        apply_override(&mut o.drop_target_hovered, &mut theme.drop_target_hovered);
        apply_override(&mut o.text_padding, &mut theme.text_padding);
        apply_override(&mut o.font_size, &mut theme.font_size);
        apply_override(&mut o.scroll_bar_size, &mut theme.scroll_bar_size);
        apply_override(&mut o.window_title_height, &mut theme.window_title_height);
        apply_override(&mut o.font, &mut theme.font);
        apply_override(&mut o.window_padding, &mut theme.window_padding);
        apply_override(&mut o.padding, &mut theme.padding);
        o
    }
}

/// Applying an override and then the override that `apply` returns restores
/// both the theme and the override.
pub proof fn lemma_theme_override_reverts<I, F>(o: ThemeOverride<I, F>, t: Theme<I, F>)
    ensures
        ({
            let (o1, t1) = spec_apply_theme(o, t);
            spec_apply_theme(o1, t1) == (o, t)
        }),
{
    let (o1, t1) = spec_apply_theme(o, t);
    let (o2, t2) = spec_apply_theme(o1, t1);
    lemma_apply_override_reverts(o.background, t.background);
    lemma_apply_override_reverts(o.window_background, t.window_background);
    lemma_apply_override_reverts(o.primary_color, t.primary_color);
    lemma_apply_override_reverts(o.secondary_color, t.secondary_color);
    lemma_apply_override_reverts(o.button_default, t.button_default);
    lemma_apply_override_reverts(o.button_hovered, t.button_hovered);
    lemma_apply_override_reverts(o.button_pressed, t.button_pressed);
    lemma_apply_override_reverts(o.button_text_color, t.button_text_color);
    lemma_apply_override_reverts(o.context_background, t.context_background);
    lemma_apply_override_reverts(o.drop_target_default, t.drop_target_default);
    lemma_apply_override_reverts(o.drop_target_hovered, t.drop_target_hovered);
    lemma_apply_override_reverts(o.text_padding, t.text_padding);
    lemma_apply_override_reverts(o.font_size, t.font_size);
    lemma_apply_override_reverts(o.scroll_bar_size, t.scroll_bar_size);
    lemma_apply_override_reverts(o.window_title_height, t.window_title_height);
    lemma_apply_override_reverts(o.font, t.font);
    lemma_apply_override_reverts(o.window_padding, t.window_padding);
    lemma_apply_override_reverts(o.padding, t.padding);
    assert(o2 == o);
    assert(t2 == t);
}

/// An override that changes nothing leaves the theme as it is.
pub proof fn lemma_empty_override_changes_nothing<I, F>(t: Theme<I, F>)
    ensures
        spec_apply_theme(spec_no_override::<I, F>(), t) == (spec_no_override::<I, F>(), t),
{
}

} // verus!

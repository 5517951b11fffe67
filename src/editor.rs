//! The editor's theme controls and pages: a radio group picks light or dark,
//! a dropdown picks the contrast, and the two stay in step with the theme in
//! use.

use vstd::prelude::*;

verus! {

/// The contrast of a colour scheme.
#[derive(PartialEq, Eq, Structural, Debug, Clone, Copy)]
pub enum Contrast {
    Standard,
    Medium,
    High,
}

/// A colour scheme: light or dark, at some contrast.
#[derive(PartialEq, Eq, Structural, Debug, Clone, Copy)]
pub enum Scheme {
    Light(Contrast),
    Dark(Contrast),
}

/// The contrast that the dropdown's selected index stands for; nothing
/// selected, or an index past the list, means standard.
pub open spec fn contrast_of(index: Option<usize>) -> Contrast {
    match index {
        Some(i) => if i == 1 {
            Contrast::Medium
        } else if i == 2 {
            Contrast::High
        } else {
            Contrast::Standard
        },
        None => Contrast::Standard,
    }
}

/// The scheme that the controls select: none while the radio group has no
/// selection; dark for its second entry, light for any other.
pub open spec fn scheme_of(theme_switch: Option<usize>, contrast_select: Option<usize>) -> Option<Scheme> {
    match theme_switch {
        Some(i) => if i == 1 {
            Some(Scheme::Dark(contrast_of(contrast_select)))
        } else {
            Some(Scheme::Light(contrast_of(contrast_select)))
        },
        None => None,
    }
}

/// The scheme selected by the radio group's selected index and the contrast
/// dropdown's value.
pub fn get_selected_scheme(theme_switch: Option<usize>, contrast_select: Option<usize>) -> (r: Option<Scheme>)
    ensures
        r == scheme_of(theme_switch, contrast_select),
{
    let contrast = match contrast_select {
        Some(index) => {
            if index == 0 {
                Contrast::Standard
            } else if index == 1 {
                Contrast::Medium
            } else if index == 2 {
                Contrast::High
            } else {
                Contrast::Standard
            }
        },
        None => Contrast::Standard,
    };
    match theme_switch {
        Some(index) => {
            if index == 1 {
                Some(Scheme::Dark(contrast))
            } else {
                Some(Scheme::Light(contrast))
            }
        },
        None => None,
    }
}

/// The dropdown index that shows a contrast.
pub open spec fn contrast_index(c: Contrast) -> usize {
    match c {
        Contrast::Standard => 0,
        Contrast::Medium => 1,
        Contrast::High => 2,
    }
}

/// The radio group index and dropdown index that show a scheme.
pub open spec fn selection_of(scheme: Scheme) -> (usize, usize) {
    match scheme {
        Scheme::Light(c) => (0, contrast_index(c)),
        Scheme::Dark(c) => (1, contrast_index(c)),
    }
}

/// The selections that bring the controls in step with the scheme in use, as
/// (radio group index, dropdown index).
pub fn scheme_selection(scheme: Scheme) -> (r: (usize, usize))
    ensures
        r == selection_of(scheme),
{
    let (switch, contrast) = match scheme {
        Scheme::Light(c) => (0, c),
        Scheme::Dark(c) => (1, c),
    };
    let contrast_index = match contrast {
        Contrast::Standard => 0,
        Contrast::Medium => 1,
        Contrast::High => 2,
    };
    (switch, contrast_index)
}

/// The scheme to put in use after a control changed: the selected one, where
/// it differs from the one in use; nothing otherwise.
pub fn theme_update(active: Scheme, selected: Option<Scheme>) -> (r: Option<Scheme>)
    ensures
        r == (match selected {
            Some(s) => if s != active {
                Some(s)
            } else {
                None::<Scheme>
            },
            None => None::<Scheme>,
        }),
{
    match selected {
        Some(s) => if s != active {
            Some(s)
        } else {
            None
        },
        None => None,
    }
}

/// Showing a scheme on the controls and reading them back gives that scheme.
pub proof fn lemma_selection_round_trip(scheme: Scheme)
    ensures
        scheme_of(Some(selection_of(scheme).0), Some(selection_of(scheme).1)) == Some(scheme),
{
}

/// A page of the editor.
#[derive(PartialEq, Eq, Structural, Debug, Clone, Copy)]
pub enum Page {
    /// No page is shown.
    Blank,
    Layout,
    Playground,
}

/// The page that a frame's menu interactions open: that of the last menu item
/// interacted with, if any.
pub open spec fn page_opened(items: Seq<(Page, bool)>) -> Option<Page>
    decreases items.len(),
{
    if items.len() == 0 {
        None
    } else if items.last().1 {
        Some(items.last().0)
    } else {
        page_opened(items.drop_last())
    }
}

/// The page to switch to, given each changed menu item's page and whether it
/// was interacted with.
pub fn page_to_open(items: &Vec<(Page, bool)>) -> (r: Option<Page>)
    ensures
        r == page_opened(items@),
{
    let mut next: Option<Page> = None;
    let mut i: usize = 0;
    while i < items.len()
        invariant
            i <= items@.len(),
            next == page_opened(items@.subrange(0, i as int)),
        decreases items.len() - i,
    {
        proof {
            assert(items@.subrange(0, i + 1).drop_last() =~= items@.subrange(0, i as int));
        }
        if items[i].1 {
            next = Some(items[i].0);
        }
        i = i + 1;
    }
    proof {
        assert(items@.subrange(0, items@.len() as int) =~= items@);
    }
    next
}

} // verus!

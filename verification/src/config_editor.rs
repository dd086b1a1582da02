//! Decisions of the configuration editor: where the focus goes next in the
//! lists of key bindings, and which theme a row of the theme table stands for.

use crate::ids::{IdKey, IdKeyGlobal, IdKeyOther};
use crate::msg::{kfglobal_focus_order, kfglobal_focus_seq, kfother_focus_order, kfother_focus_seq, KFMsg};
use vstd::prelude::*;

verus! {

/// How many themes there are without actual files and always exist.
pub const THEMES_WITHOUT_FILES: usize = 2;

/// The theme that a row of the theme table stands for.
#[derive(Debug, PartialEq, Eq, Clone, Copy, Structural)]
pub enum ThemeSource {
    /// The built-in default theme.
    Default,
    /// The theme that uses the terminal's own colors.
    Native,
    /// The theme file at this place in the list of theme files.
    File(usize),
}

/// The theme behind row `index` of a theme table that lists the two built-in
/// themes first and then `themes_len` theme files; `None` below the last row.
pub fn preview_theme_source(index: usize, themes_len: usize) -> (source: Option<ThemeSource>)
    ensures
        source == if index == 0 {
            Some(ThemeSource::Default)
        } else if index == 1 {
            Some(ThemeSource::Native)
        } else if index - THEMES_WITHOUT_FILES < themes_len {
            Some(ThemeSource::File((index - THEMES_WITHOUT_FILES) as usize))
        } else {
            None
        },
{
    if index == 0 {
        Some(ThemeSource::Default)
    } else if index == 1 {
        Some(ThemeSource::Native)
    } else if index - THEMES_WITHOUT_FILES < themes_len {
        Some(ThemeSource::File(index - THEMES_WITHOUT_FILES))
    } else {
        None
    }
}

/// The entry that gains focus after `focus`: the one behind the first place
/// of `focus` in `order`, or the first entry where nothing stands behind it
/// or `focus` is not in `order`.
pub open spec fn focus_after(order: Seq<IdKey>, focus: IdKey) -> IdKey {
    match order.index_of_first(focus) {
        Some(place) => if place + 1 < order.len() {
            order[place + 1]
        } else {
            order[0]
        },
        None => order[0],
    }
}

/// The entry that gains focus before `focus`: the one in front of the last
/// place of `focus` in `order`, or the last entry where nothing stands in
/// front of it or `focus` is not in `order`.
pub open spec fn focus_before(order: Seq<IdKey>, focus: IdKey) -> IdKey {
    match order.index_of_last(focus) {
        Some(place) => if place >= 1 {
            order[place - 1]
        } else {
            order.last()
        },
        None => order.last(),
    }
}

/// Where the focus goes in `order` from `focus`, one step in the direction of `msg`.
pub open spec fn focus_target(order: Seq<IdKey>, focus: Option<IdKey>, msg: KFMsg) -> IdKey {
    match focus {
        None => order[0],
        Some(focus) => match msg {
            KFMsg::Next => focus_after(order, focus),
            KFMsg::Previous => focus_before(order, focus),
        },
    }
}

/// Moves the focus one step through `order`, wrapping around at both ends.
/// With no focus in the list, the focus goes to the first entry.
pub fn key_focus_step(order: &Vec<IdKey>, focus: Option<IdKey>, msg: KFMsg) -> (target: IdKey)
    requires
        order@.len() > 0,
    ensures
        target == focus_target(order@, focus, msg),
        order@.contains(target),
{
    let first = order[0];
    let last = order[order.len() - 1];
    let key = match focus {
        Some(key) => key,
        None => {
            return first;
        },
    };
    match msg {
        KFMsg::Next => {
            let mut i: usize = 0;
            while i < order.len()
                invariant
                    i <= order.len(),
                    first == order@[0],
                    focus == Some(key),
                    msg == KFMsg::Next,
                    forall|j: int| 0 <= j < i ==> order@[j] != key,
                decreases order.len() - i,
            {
                if order[i] == key {
                    proof {
                        order@.index_of_first_ensures(key);
                    }
                    assert(order@.index_of_first(key) == Some(i as int));
                    if i + 1 < order.len() {
                        return order[i + 1];
                    } else {
                        return first;
                    }
                }
                i += 1;
            }
            proof {
                order@.index_of_first_ensures(key);
            }
            first
        },
        KFMsg::Previous => {
            let mut i: usize = order.len();
            while i > 0
                invariant
                    i <= order.len(),
                    last == order@.last(),
                    focus == Some(key),
                    msg == KFMsg::Previous,
                    forall|j: int| i <= j < order.len() ==> order@[j] != key,
                decreases i,
            {
                i -= 1;
                if order[i] == key {
                    proof {
                        order@.index_of_last_ensures(key);
                    }
                    assert(order@.index_of_last(key) == Some(i as int));
                    if i >= 1 {
                        return order[i - 1];
                    } else {
                        return last;
                    }
                }
            }
            proof {
                order@.index_of_last_ensures(key);
            }
            last
        },
    }
}

/// Moves the focus one step through the global key bindings. `focus` is the
/// binding that has the focus, if one of them has it.
pub fn update_key_focus_global(focus: Option<IdKeyGlobal>, msg: KFMsg) -> (target: IdKey)
    ensures
        target == focus_target(
            kfglobal_focus_seq(),
            match focus {
                Some(key) => Some(IdKey::Global(key)),
                None => None,
            },
            msg,
        ),
        target is Global,
{
    let order = kfglobal_focus_order();
    let focus = match focus {
        Some(key) => Some(IdKey::Global(key)),
        None => None,
    };
    key_focus_step(&order, focus, msg)
}

/// Moves the focus one step through the key bindings of the single views.
/// `focus` is the binding that has the focus, if one of them has it.
pub fn update_key_focus_other(focus: Option<IdKeyOther>, msg: KFMsg) -> (target: IdKey)
    ensures
        target == focus_target(
            kfother_focus_seq(),
            match focus {
                Some(key) => Some(IdKey::Other(key)),
                None => None,
            },
            msg,
        ),
        target is Other,
{
    let order = kfother_focus_order();
    let focus = match focus {
        Some(key) => Some(IdKey::Other(key)),
        None => None,
    };
    key_focus_step(&order, focus, msg)
}

} // verus!

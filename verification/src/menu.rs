//! The choices that a player makes before joining: a name, a plane and a
//! colour.
use vstd::prelude::*;
use crate::player::{Color, PlaneType};

verus! {

/// The number of planes to choose from.
pub const PLANE_COUNT: usize = 4;

/// The number of colours to choose from.
pub const COLOR_COUNT: usize = 5;

/// The plane at `index` in the list of choices.
pub open spec fn plane_choice(index: int) -> PlaneType {
    if index == 0 {
        PlaneType::SukaBlyat
    } else if index == 1 {
        PlaneType::HowdyCowboy
    } else if index == 2 {
        PlaneType::ElPolloRomero
    } else {
        PlaneType::AchtungBlitzKrieg
    }
}

/// The colour at `index` in the list of choices.
pub open spec fn color_choice(index: int) -> Color {
    if index == 0 {
        Color::Red
    } else if index == 1 {
        Color::Green
    } else if index == 2 {
        Color::Blue
    } else if index == 3 {
        Color::Yellow
    } else {
        Color::Purple
    }
}

/// The state of the menu: the name typed so far, the selections, and the
/// plane and colour that the selections stood for when last updated.
#[derive(Clone, Debug)]
pub struct MenuState {
    pub plane: PlaneType,
    pub name: String,
    pub color: Color,
    pub color_selection: usize,
    pub plane_selection: usize,
}

impl MenuState {
    /// The menu as it opens: no name, the first plane and the first colour.
    pub fn new() -> (r: MenuState)
        ensures
            r.name@ == Seq::<char>::empty(),
            r.plane == plane_choice(0),
            r.color == color_choice(0),
            r.color_selection == 0,
            r.plane_selection == 0,
    {
        MenuState {
            name: String::new(),
            plane: PlaneType::SukaBlyat,
            color: Color::Red,
            color_selection: 0,
            plane_selection: 0,
        }
    }

    /// Brings the plane and the colour in line with the selections.
    pub fn update(&mut self)
        requires
            old(self).plane_selection < PLANE_COUNT,
            old(self).color_selection < COLOR_COUNT,
        ensures
            final(self).plane == plane_choice(old(self).plane_selection as int),
            final(self).color == color_choice(old(self).color_selection as int),
            final(self).name == old(self).name,
            final(self).plane_selection == old(self).plane_selection,
            final(self).color_selection == old(self).color_selection,
    {
        self.plane = if self.plane_selection == 0 {
            PlaneType::SukaBlyat
        } else if self.plane_selection == 1 {
            PlaneType::HowdyCowboy
        } else if self.plane_selection == 2 {
            PlaneType::ElPolloRomero
        } else {
            PlaneType::AchtungBlitzKrieg
        };
        self.color = if self.color_selection == 0 {
            Color::Red
        } else if self.color_selection == 1 {
            Color::Green
        } else if self.color_selection == 2 {
            Color::Blue
        } else if self.color_selection == 3 {
            Color::Yellow
        } else {
            Color::Purple
        };
    }

    /// Moves the selection on to the next plane, and after the last to the
    /// first.
    pub fn select_next_plane(&mut self)
        requires
            old(self).plane_selection < PLANE_COUNT,
        ensures
            final(self).plane_selection == (old(self).plane_selection + 1) % (PLANE_COUNT as int),
            final(self).color_selection == old(self).color_selection,
            final(self).plane == old(self).plane,
            final(self).color == old(self).color,
            final(self).name == old(self).name,
    {
        self.plane_selection = (self.plane_selection + 1) % PLANE_COUNT;
    }

    /// Moves the selection on to the next colour, and after the last to the
    /// first.
    pub fn select_next_color(&mut self)
        requires
            old(self).color_selection < COLOR_COUNT,
        ensures
            final(self).color_selection == (old(self).color_selection + 1) % (COLOR_COUNT as int),
            final(self).plane_selection == old(self).plane_selection,
            final(self).plane == old(self).plane,
            final(self).color == old(self).color,
            final(self).name == old(self).name,
    {
        self.color_selection = (self.color_selection + 1) % COLOR_COUNT;
    }
}

} // verus!

//! Window size presets offered to the shell layer.

use vstd::prelude::*;

verus! {

/// A window size in physical pixels.
#[derive(Debug, Clone)]
pub struct WindowSize {
    pub width: u32,
    pub height: u32,
}

impl WindowSize {
    /// The default window size.
    pub fn default() -> (r: Self)
        ensures
            r.width == 1200,
            r.height == 800,
    {
        Self { width: 1200, height: 800 }
    }

    /// A compact preset for small screens.
    pub fn compact() -> (r: Self)
        ensures
            r.width == 1000,
            r.height == 700,
    {
        Self { width: 1000, height: 700 }
    }

    /// A preset for large screens.
    pub fn large() -> (r: Self)
        ensures
            r.width == 1920,
            r.height == 1200,
    {
        Self { width: 1920, height: 1200 }
    }

    /// A preset for very large screens.
    pub fn extra_large() -> (r: Self)
        ensures
            r.width == 2560,
            r.height == 1440,
    {
        Self { width: 2560, height: 1440 }
    }
}

/// One selectable window size preset.
#[derive(Debug, Clone)]
pub struct WindowSizeOption {
    pub id: String,
    pub name: String,
    pub description: String,
    pub size: WindowSize,
}

impl WindowSizeOption {
    /// All presets, in the order they are offered.
    pub fn all_options() -> (r: Vec<Self>)
        ensures
            r@.len() == 4,
            r@[0].id@ == "compact"@,
            r@[0].size.width == 1000 && r@[0].size.height == 700,
            r@[1].id@ == "default"@,
            r@[1].size.width == 1200 && r@[1].size.height == 800,
            r@[2].id@ == "large"@,
            r@[2].size.width == 1920 && r@[2].size.height == 1200,
            r@[3].id@ == "extra_large"@,
            r@[3].size.width == 2560 && r@[3].size.height == 1440,
            forall|i: int| 0 <= i < 4 ==> (#[trigger] r@[i].id@).len() > 0,
            forall|i: int| 0 <= i < 4 ==> (#[trigger] r@[i].name@).len() > 0,
            forall|i: int| 0 <= i < 4 ==> (#[trigger] r@[i].description@).len() > 0,
    {
        proof {
            reveal_strlit("compact");
            reveal_strlit("default");
            reveal_strlit("large");
            reveal_strlit("extra_large");
            reveal_strlit("Compact");
            reveal_strlit("Default");
            reveal_strlit("Large");
            reveal_strlit("Extra large");
            reveal_strlit("1000x700 - saves screen space");
            reveal_strlit("1200x800 - everyday use");
            reveal_strlit("1920x1200 - large displays");
            reveal_strlit("2560x1440 - very large displays");
        }
        let mut r: Vec<Self> = Vec::new();
        r.push(Self {
            id: String::from_str("compact"),
            name: String::from_str("Compact"),
            description: String::from_str("1000x700 - saves screen space"),
            size: WindowSize::compact(),
        });
        r.push(Self {
            id: String::from_str("default"),
            name: String::from_str("Default"),
            description: String::from_str("1200x800 - everyday use"),
            size: WindowSize::default(),
        });
        r.push(Self {
            id: String::from_str("large"),
            name: String::from_str("Large"),
            description: String::from_str("1920x1200 - large displays"),
            size: WindowSize::large(),
        });
        r.push(Self {
            id: String::from_str("extra_large"),
            name: String::from_str("Extra large"),
            description: String::from_str("2560x1440 - very large displays"),
            size: WindowSize::extra_large(),
        });
        r
    }
}

} // verus!

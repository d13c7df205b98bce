//! Widgets: elements with a fill colour that can be set.

use vstd::prelude::*;
use crate::color::{Color, InvalidColorFormat};
use crate::styles::Style;
use crate::ui::element::{Element, ElementData};

verus! {

/// An element whose fill colour can be set from a colour descriptor.
pub trait Widget: Element {
    /// Resolves `fill` and makes it the fill colour; the element becomes
    /// dirty if that changes its fill. A malformed descriptor is reported
    /// and changes nothing.
    fn set_fill(&mut self, fill: Color) -> (res: Result<(), InvalidColorFormat>)
        ensures
            match fill.resolved() {
                Ok(c) => res is Ok && final(self).element_data() == (ElementData {
                    style: Style { fill: c, ..old(self).element_data().style },
                    dirty: old(self).element_data().dirty || c != old(self).element_data().style.fill,
                    ..old(self).element_data()
                }),
                Err(e) => res == Err::<(), InvalidColorFormat>(e) && final(self).element_data()
                    == old(self).element_data(),
            },
    ;
}

} // verus!

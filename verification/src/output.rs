//! The choice of the display to capture.

use vstd::prelude::*;
use crate::error::Error;

verus! {

/// One display, as the display server reports it.
#[derive(Clone, Debug, PartialEq, Eq)]
pub struct Output {
    /// The name by which the display is captured.
    pub name: String,
    /// Whether the display is the one in use.
    pub focused: bool,
}

/// A display as the contracts see it.
pub struct OutputModel {
    pub name: Seq<char>,
    pub focused: bool,
}

impl View for Output {
    type V = OutputModel;

    open spec fn view(&self) -> OutputModel {
        OutputModel { name: self.name@, focused: self.focused }
    }
}

/// Whether `outputs[i]` is the first focused display of the list.
pub open spec fn is_first_focused(outputs: Seq<Output>, i: int) -> bool {
    &&& 0 <= i < outputs.len()
    &&& outputs[i]@.focused
    &&& forall|j: int| 0 <= j < i ==> !(#[trigger] outputs[j])@.focused
}

/// Whether some display of the list is focused.
pub open spec fn some_focused(outputs: Seq<Output>) -> bool {
    exists|i: int| 0 <= i < outputs.len() && (#[trigger] outputs[i])@.focused
}

/// The name of the display to capture: that of the first focused display
/// of the list. Fails with `Error::NoOutput` where none is focused.
pub fn select_output(outputs: &Vec<Output>) -> (r: Result<String, Error>)
    ensures
        r is Ok <==> some_focused(outputs@),
        r matches Ok(name) ==> exists|i: int|
            is_first_focused(outputs@, i) && name@ == (#[trigger] outputs@[i])@.name,
        r matches Err(e) ==> e == Error::NoOutput,
{
    let mut i: usize = 0;
    while i < outputs.len()
        invariant
            i <= outputs.len(),
            forall|j: int| 0 <= j < i ==> !(#[trigger] outputs@[j])@.focused,
        decreases outputs.len() - i,
    {
        if outputs[i].focused {
            let name = outputs[i].name.clone();
            assert(is_first_focused(outputs@, i as int));
            return Ok(name);
        }
        i += 1;
    }
    Err(Error::NoOutput)
}

} // verus!

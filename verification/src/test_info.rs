//! The flat record that one emitted test case becomes.

use crate::model::views;
use vstd::prelude::*;

verus! {

/// One test vector, ready for a fixture writer: its byte fields in a fixed
/// order, and a line of text that describes it.
#[derive(Debug, PartialEq, Eq)]
pub struct TestInfo {
    /// The byte fields of the vector.
    pub data: Vec<Vec<u8>>,
    /// The description of the vector.
    pub desc: String,
}

/// A [`TestInfo`] as specifications see it.
pub struct TestInfoView {
    pub data: Seq<Seq<u8>>,
    pub desc: Seq<char>,
}

impl View for TestInfo {
    type V = TestInfoView;

    open spec fn view(&self) -> TestInfoView {
        TestInfoView { data: views(self.data@), desc: self.desc@ }
    }
}

} // verus!

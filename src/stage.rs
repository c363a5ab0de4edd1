use vstd::prelude::*;

verus! {

/// One compilation unit of a shader program.
#[derive(Clone, Copy, Debug, PartialEq, Eq, Structural)]
pub enum Stage {
    Vertex,
    Fragment,
    Geometry,
}

impl Stage {
    /// The label under which a failure of this stage is reported.
    pub open spec fn spec_label(self) -> Seq<char> {
        match self {
            Stage::Vertex => "VERTEX"@,
            Stage::Fragment => "FRAGMENT"@,
            Stage::Geometry => "GEOMETRY"@,
        }
    }

    pub fn label(&self) -> (r: &'static str)
        ensures
            r@ == self.spec_label(),
    {
        match self {
            Stage::Vertex => "VERTEX",
            Stage::Fragment => "FRAGMENT",
            Stage::Geometry => "GEOMETRY",
        }
    }
}

} // verus!

use vstd::prelude::*;

verus! {

/// A marker expression: a predicate over environment attributes that
/// delimits the environments a fork applies to. Held as its rendered text.
#[derive(Clone, Debug, PartialEq, Eq)]
pub struct MarkerTree {
    expression: String,
}

impl View for MarkerTree {
    type V = Seq<char>;

    closed spec fn view(&self) -> Seq<char> {
        self.expression@
    }
}

impl MarkerTree {
    /// The marker expression with the given text.
    pub fn new(expression: &str) -> (r: MarkerTree)
        ensures
            r@ == expression@,
    {
        MarkerTree { expression: String::from_str(expression) }
    }

    /// A copy of this expression.
    pub fn duplicate(&self) -> (r: MarkerTree)
        ensures
            r@ == self@,
    {
        MarkerTree { expression: self.expression.clone() }
    }

    /// The text of the expression.
    pub fn as_str(&self) -> (r: &str)
        ensures
            r@ == self@,
    {
        self.expression.as_str()
    }
}

/// The scope of a resolution pass.
#[derive(Clone, Debug, PartialEq, Eq)]
pub enum ResolverMarkers {
    /// One resolution for every target environment, or for a single
    /// environment that is already pinned: no partition to report.
    Universal,
    /// A resolution restricted to the environments that satisfy the markers.
    Fork(MarkerTree),
}

impl ResolverMarkers {
    /// The markers of a fork, or `None` for a universal resolution.
    pub fn fork_markers(&self) -> (r: Option<&MarkerTree>)
        ensures
            match *self {
                ResolverMarkers::Universal => r is None,
                ResolverMarkers::Fork(m) => r == Some(&m),
            },
    {
        match self {
            ResolverMarkers::Universal => None,
            ResolverMarkers::Fork(m) => Some(m),
        }
    }
}

} // verus!

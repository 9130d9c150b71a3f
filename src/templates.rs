use vstd::prelude::*;

verus! {

/// Values of the greeting page.
pub struct HelloTemplate<'a> {
    pub title: &'a str,
    pub name: &'a str,
    /// Current year.
    pub year: i32,
}

/// Values of the page head.
pub struct HeadTemplate<'a> {
    pub title: &'a str,
}

/// Values of the page footer.
pub struct FooterTemplate {
    pub year: i32,
}

/// Values of the main page.
pub struct IndexTemplate<'a> {
    pub title: &'a str,
    /// Current year.
    pub year: i32,
}

/// The page script, which takes no values.
pub struct ScriptTemplate {}

/// The page style, which takes no values.
pub struct StyleTemplate {}

} // verus!

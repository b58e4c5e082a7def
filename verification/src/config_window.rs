use vstd::prelude::*;

verus! {

/// A window of the front end that the side panel shows or hides by name.
pub struct ConfigWindow {
    pub display: bool,
    pub name: String,
}

/// A window with the given title and visibility.
pub(crate) fn window(name: &str, display: bool) -> (res: ConfigWindow)
    ensures
        res.name@ == name@,
        res.display == display,
{
    ConfigWindow { display, name: String::from_str(name) }
}

impl ConfigWindow {
    /// The "Screen Config" window, hidden at first.
    pub fn new_screen_config() -> (res: Self)
        ensures
            res.name@ == "Screen Config"@,
            !res.display,
    {
        window("Screen Config", false)
    }
}

} // verus!

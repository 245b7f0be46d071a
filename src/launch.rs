//! The file named on the command line.

use vstd::prelude::*;

verus! {

/// The path given at launch, empty when none was.
pub struct AppStore {
    open_file_path: String,
}

impl View for AppStore {
    type V = Seq<char>;

    closed spec fn view(&self) -> Seq<char> {
        self.open_file_path@
    }
}

impl AppStore {
    /// Takes the process arguments, the program name first: the path is the
    /// first argument after it, if there is one.
    pub fn from_args(args: &Vec<String>) -> (r: Self)
        ensures
            r@ == (if args@.len() > 1 {
                args@[1]@
            } else {
                Seq::<char>::empty()
            }),
    {
        if args.len() > 1 {
            AppStore { open_file_path: args[1].clone() }
        } else {
            AppStore { open_file_path: String::new() }
        }
    }

    /// The path to open at start-up, if one was given.
    pub fn launch_path(&self) -> (r: Option<String>)
        ensures
            match r {
                Some(p) => self@.len() > 0 && p@ == self@,
                None => self@.len() == 0,
            },
    {
        if self.open_file_path.as_str().is_empty() {
            None
        } else {
            Some(self.open_file_path.clone())
        }
    }
}

} // verus!

use vstd::prelude::*;

verus! {

/// Configuration parsed from the process argument list.
///
/// `opt` holds the first positional argument, or the empty string when none
/// was given. The listing logic does not consult it yet: the field is a
/// reserved extension point for future filtering options.
pub struct Config {
    pub opt: String,
}

impl Config {
    /// Parse the ordered argument sequence (whose first element is
    /// conventionally the program name) into a `Config`.
    ///
    /// When at least two arguments are present, `opt` is a copy of the
    /// second; otherwise `opt` is the empty string. Arguments past the
    /// second are ignored. Parsing never fails on any current input; the
    /// `Result` keeps the interface stable for future argument validation.
    pub fn new(args: &[String]) -> (r: Result<Config, &'static str>)
        ensures
            r is Ok,
            args@.len() >= 2 ==> r->Ok_0.opt@ == args@[1]@,
            args@.len() < 2 ==> r->Ok_0.opt@ == Seq::<char>::empty(),
    {
        let mut opt: String = String::new();
        if args.len() > 1 {
            opt = args[1].clone();
        }
        Ok(Config { opt })
    }
}

} // verus!

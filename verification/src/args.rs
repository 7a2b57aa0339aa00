use crate::date::{spec_resolve, Advent, Day, ReferenceInstant, Year};
use crate::decimal::{push_decimal, spec_decimal};
use crate::error::AdventError;
use vstd::prelude::*;

verus! {

/// Options as the command line hands them over: nothing validated yet.
/// Paths are plain strings; the caller owns path semantics.
#[derive(Clone, Debug)]
pub struct Args {
    pub year: Option<u32>,
    pub day: Option<u32>,
    pub output: Option<String>,
    pub credentials_path: Option<String>,
}

/// Options after validation: a resolved coordinate and a definite
/// output path. A missing credentials path stays `None`; the caller
/// substitutes its platform default.
pub struct CheckedArgs {
    pub year: Year,
    pub day: Day,
    pub output: String,
    pub credentials_path: Option<String>,
}

/// The default output location: `./input/<year>/day<day>.txt`.
pub open spec fn spec_output_path(y: nat, d: nat) -> Seq<char> {
    "./input/"@ + spec_decimal(y) + "/day"@ + spec_decimal(d) + ".txt"@
}

/// Where a puzzle input lands when no explicit output path was given.
pub fn default_output_path(year: u32, day: u32) -> (r: String)
    ensures
        r@ == spec_output_path(year as nat, day as nat),
{
    let mut s = String::from_str("./input/");
    push_decimal(&mut s, year as u64);
    s.append("/day");
    push_decimal(&mut s, day as u64);
    s.append(".txt");
    proof {
        assert(s@ =~= spec_output_path(year as nat, day as nat));
    }
    s
}

impl CheckedArgs {
    /// Validates raw options against the reference instant. On success
    /// the coordinate is the one the dispatch table assigns, the output
    /// path is the given one or the default for that coordinate, and
    /// the credentials path is passed through untouched.
    pub fn try_from(args: Args, now: &ReferenceInstant) -> (r: Result<CheckedArgs, AdventError>)
        ensures
            match spec_resolve(args.year, args.day, *now) {
                Ok(p) => {
                    &&& r matches Ok(c)
                    &&& c.year.spec_inner() == p.0
                    &&& c.day.spec_inner() == p.1
                    &&& (args.output matches Some(o) ==> c.output == o)
                    &&& (args.output is None ==> c.output@ == spec_output_path(
                        p.0 as nat,
                        p.1 as nat,
                    ))
                    &&& c.credentials_path == args.credentials_path
                },
                Err(e) => r == Err::<CheckedArgs, AdventError>(e),
            },
    {
        let date = match Advent::resolve(args.year, args.day, now) {
            Ok(v) => v,
            Err(e) => {
                return Err(e);
            },
        };
        let year = date.year();
        let day = date.day();

        let output = match args.output {
            Some(x) => x,
            None => default_output_path(year.inner(), day.inner()),
        };

        Ok(
            CheckedArgs {
                year,
                day,
                output,
                credentials_path: args.credentials_path,
            },
        )
    }
}

} // verus!

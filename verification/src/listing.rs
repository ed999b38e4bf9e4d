use vstd::prelude::*;
use crate::config::Config;

verus! {

/// Error for a directory that could not be opened for reading at all.
/// Unrecoverable at the point of detection: the caller is expected to report
/// `message` and terminate with a non-zero exit status.
#[derive(Debug)]
pub struct ListingError {
    pub message: String,
}

/// The lines a listing prints, given the per-entry outcome of one directory
/// read: the path of every entry read successfully before the first failed
/// read, in the order the directory yielded them. A failed read (`None`)
/// stops enumeration at once, so entries past it do not appear, readable or
/// not.
pub open spec fn successful_prefix(entries: Seq<Option<String>>) -> Seq<Seq<char>>
    decreases entries.len(),
{
    if entries.len() == 0 {
        Seq::empty()
    } else if entries[0] is None {
        Seq::empty()
    } else {
        seq![entries[0].unwrap()@] + successful_prefix(entries.drop_first())
    }
}

/// The character sequences of a sequence of output lines.
pub open spec fn lines_view(lines: Seq<String>) -> Seq<Seq<char>> {
    lines.map_values(|s: String| s@)
}

/// Collect the paths of the entries read successfully before the first
/// failed read, in order.
fn listing_lines(entries: &Vec<Option<String>>) -> (r: Vec<String>)
    ensures
        lines_view(r@) == successful_prefix(entries@),
{
    let ghost e = entries@;
    let mut out: Vec<String> = Vec::new();
    let mut i: usize = 0;
    proof {
        assert(e.skip(0) =~= e);
        assert(lines_view(out@) + successful_prefix(e.skip(0)) =~= successful_prefix(e));
    }
    while i < entries.len() && entries[i].is_some()
        invariant
            i <= e.len(),
            e == entries@,
            lines_view(out@) + successful_prefix(e.skip(i as int)) == successful_prefix(e),
        decreases e.len() - i,
    {
        let line = entries[i].as_ref().unwrap().clone();
        proof {
            assert(e.skip(i as int)[0] == e[i as int]);
            assert(e.skip(i as int).drop_first() =~= e.skip(i + 1));
            assert(lines_view(out@.push(line)) =~= lines_view(out@) + seq![line@]);
            assert(lines_view(out@.push(line)) + successful_prefix(e.skip(i + 1))
                =~= lines_view(out@) + successful_prefix(e.skip(i as int)));
        }
        out.push(line);
        i = i + 1;
    }
    proof {
        assert(successful_prefix(e.skip(i as int)) =~= Seq::<Seq<char>>::empty());
        assert(lines_view(out@) =~= lines_view(out@) + successful_prefix(e.skip(i as int)));
    }
    out
}

/// Produce the listing for one directory read, or the fatal error.
///
/// `dir` is the outcome of reading the directory: `Err` when the directory
/// itself could not be opened (with the platform's message), `Ok` with the
/// per-entry read outcomes otherwise (`None` standing for an entry whose
/// read failed). The configuration is accepted but not yet consulted: a
/// deliberate placeholder for future filtering behaviour.
///
/// On `Ok`, the result holds exactly the lines to print, one per entry read
/// successfully before the first failure, in the order the directory yielded
/// them. On `Err`, the error carries the message through unchanged.
pub fn run(dir: Result<Vec<Option<String>>, String>, _config: Config) -> (r: Result<
    Vec<String>,
    ListingError,
>)
    ensures
        r is Ok <==> dir is Ok,
        dir is Ok ==> lines_view(r->Ok_0@) == successful_prefix(dir->Ok_0@),
        dir is Err ==> r->Err_0.message@ == dir->Err_0@,
{
    match dir {
        Ok(entries) => Ok(listing_lines(&entries)),
        Err(message) => Err(ListingError { message }),
    }
}

/// Listing is determined by the directory's entries alone: any two results
/// that `run` may return for the same read outcome of an unchanged directory
/// print identical lines.
pub proof fn lemma_listing_repeatable(
    entries: Seq<Option<String>>,
    first: Result<Vec<String>, ListingError>,
    second: Result<Vec<String>, ListingError>,
)
    requires
        first is Ok,
        second is Ok,
        lines_view(first->Ok_0@) == successful_prefix(entries),
        lines_view(second->Ok_0@) == successful_prefix(entries),
    ensures
        lines_view(first->Ok_0@) == lines_view(second->Ok_0@),
{
}

/// An empty directory produces zero lines of output.
pub proof fn lemma_empty_directory(entries: Seq<Option<String>>)
    requires
        entries.len() == 0,
    ensures
        successful_prefix(entries).len() == 0,
{
}

} // verus!

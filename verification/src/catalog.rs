//! The source catalog: the run's input frames in directory-listing order,
//! each with the timestamp parsed from its filename stem, and the
//! nearest-preceding selection rule over them.

use vstd::prelude::*;

use crate::error::Error;
use crate::timecodec::{caption_of, parse_date, parses, stamp_of, supported};

verus! {

/// One listed source file, as the driver hands it over: the full path, the
/// filename stem the timestamp is parsed from, and the file extension.
#[derive(Debug)]
pub struct SourceListing {
    pub path: String,
    pub stem: String,
    pub extension: String,
}

/// A source frame: a path plus its parsed timestamp and caption rendering.
#[derive(Debug)]
pub struct SourceFrame {
    pub path: String,
    pub extension: String,
    pub stamp: i64,
    pub caption: String,
}

/// The run's source frames, in directory-listing order. Duplicate timestamps
/// are permitted; selection resolves them in favour of the later entry.
#[derive(Debug)]
pub struct SourceCatalog {
    pub frames: Vec<SourceFrame>,
}

impl SourceCatalog {
    /// Every catalog timestamp is a supported instant.
    pub open spec fn wf(self) -> bool {
        forall|i: int|
            0 <= i < self.frames@.len() ==> supported(#[trigger] self.frames@[i].stamp)
    }

    /// Ascending by timestamp. Holds whenever the directory-listing sort
    /// order agrees with timestamp order, as it does for stems that render
    /// the timestamp most-significant-field first.
    pub open spec fn sorted(self) -> bool {
        forall|i: int, j: int|
            0 <= i <= j < self.frames@.len() ==> #[trigger] self.frames@[i].stamp
                <= #[trigger] self.frames@[j].stamp
    }

    /// Builds the catalog by parsing every listed stem against the
    /// configured timestamp pattern. The first stem that does not parse is
    /// a `FilenameFormat` error naming that stem, and the whole run is
    /// refused.
    pub fn build(listings: Vec<SourceListing>, pattern: &str) -> (r: Result<
        SourceCatalog,
        Error,
    >)
        ensures
            match r {
                Ok(catalog) => {
                    &&& catalog.wf()
                    &&& catalog.frames@.len() == listings@.len()
                    &&& forall|i: int|
                        0 <= i < listings@.len() ==> {
                            &&& (#[trigger] catalog.frames@[i]).path@ == listings@[i].path@
                            &&& catalog.frames@[i].extension@ == listings@[i].extension@
                            &&& Some(catalog.frames@[i].stamp) == stamp_of(
                                listings@[i].stem@,
                                pattern@,
                            )
                            &&& catalog.frames@[i].caption@ == caption_of(
                                catalog.frames@[i].stamp,
                            )
                        }
                },
                Err(e) => exists|i: int|
                    #![trigger listings@[i]]
                    {
                        &&& 0 <= i < listings@.len()
                        &&& !parses(listings@[i].stem@, pattern@)
                        &&& forall|j: int|
                            0 <= j < i ==> parses(#[trigger] listings@[j].stem@, pattern@)
                        &&& e matches Error::FilenameFormat(s) && s@ == listings@[i].stem@
                    },
            },
    {
        let mut frames: Vec<SourceFrame> = Vec::new();
        let mut k: usize = 0;
        while k < listings.len()
            invariant
                k <= listings@.len(),
                frames@.len() == k,
                forall|i: int|
                    0 <= i < k ==> {
                        &&& (#[trigger] frames@[i]).path@ == listings@[i].path@
                        &&& frames@[i].extension@ == listings@[i].extension@
                        &&& Some(frames@[i].stamp) == stamp_of(listings@[i].stem@, pattern@)
                        &&& frames@[i].caption@ == caption_of(frames@[i].stamp)
                        &&& supported(frames@[i].stamp)
                    },
            decreases listings@.len() - k,
        {
            let listing = &listings[k];
            match parse_date(listing.stem.as_str(), pattern) {
                Ok((stamp, caption)) => {
                    frames.push(
                        SourceFrame {
                            path: listing.path.clone(),
                            extension: listing.extension.clone(),
                            stamp,
                            caption,
                        },
                    );
                },
                Err(e) => {
                    proof {
                        assert forall|j: int| 0 <= j < k implies parses(
                            #[trigger] listings@[j].stem@,
                            pattern@,
                        ) by {
                            assert(Some(frames@[j].stamp) == stamp_of(listings@[j].stem@, pattern@)
                                && supported(frames@[j].stamp));
                        }
                        assert(0 <= k < listings@.len() && !parses(
                            listings@[k as int].stem@,
                            pattern@,
                        ));
                    }
                    return Err(e);
                },
            }
            k = k + 1;
        }
        Ok(SourceCatalog { frames })
    }

    /// Nearest-preceding selection as the scan order defines it: the last
    /// catalog position whose timestamp does not exceed the target, or
    /// `None` when no entry qualifies yet.
    pub fn select(&self, target: i64) -> (r: Option<usize>)
        ensures
            match r {
                Some(i) => {
                    &&& i < self.frames@.len()
                    &&& self.frames@[i as int].stamp <= target
                    &&& forall|j: int|
                        i < j < self.frames@.len() ==> #[trigger] self.frames@[j].stamp > target
                },
                None => forall|j: int|
                    0 <= j < self.frames@.len() ==> #[trigger] self.frames@[j].stamp > target,
            },
    {
        let mut k: usize = self.frames.len();
        while k > 0
            invariant
                k <= self.frames@.len(),
                forall|j: int|
                    k <= j < self.frames@.len() ==> #[trigger] self.frames@[j].stamp > target,
            decreases k,
        {
            k = k - 1;
            if self.frames[k].stamp <= target {
                return Some(k);
            }
        }
        None
    }
}

/// Nearest-preceding correctness on an ascending catalog: the selected entry
/// carries the greatest timestamp not exceeding the target, and no entry
/// qualifies exactly when the first entry's timestamp already exceeds it.
pub proof fn lemma_select_nearest_preceding(catalog: SourceCatalog, target: i64, r: Option<usize>)
    requires
        catalog.sorted(),
        match r {
            Some(i) => {
                &&& i < catalog.frames@.len()
                &&& catalog.frames@[i as int].stamp <= target
                &&& forall|j: int|
                    i < j < catalog.frames@.len() ==> #[trigger] catalog.frames@[j].stamp > target
            },
            None => forall|j: int|
                0 <= j < catalog.frames@.len() ==> #[trigger] catalog.frames@[j].stamp > target,
        },
    ensures
        match r {
            Some(i) => forall|j: int|
                0 <= j < catalog.frames@.len() && #[trigger] catalog.frames@[j].stamp <= target
                    ==> catalog.frames@[j].stamp <= catalog.frames@[i as int].stamp,
            None => catalog.frames@.len() > 0 ==> catalog.frames@[0].stamp > target,
        },
{
    match r {
        Some(i) => {
            assert forall|j: int|
                0 <= j < catalog.frames@.len() && #[trigger] catalog.frames@[j].stamp
                    <= target implies catalog.frames@[j].stamp <= catalog.frames@[i as int].stamp by {
                if j > i {
                    assert(catalog.frames@[j].stamp > target);
                }
            }
        },
        None => {},
    }
}

} // verus!

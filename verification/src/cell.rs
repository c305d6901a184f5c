//! A memoizing cell over "load raw bytes, then process them".

use crate::error::FileError;
use vstd::prelude::*;

verus! {

/// The 128-bit fingerprint of the outcome of a load: of the bytes where it
/// succeeded, of the failure where it did not.
pub uninterp spec fn content_hash(raw: Result<Seq<u8>, FileError>) -> u128;

/// The outcome of a load as the fingerprint sees it.
pub open spec fn raw_view(raw: Result<Vec<u8>, FileError>) -> Result<Seq<u8>, FileError> {
    match raw {
        Ok(bytes) => Ok(bytes@),
        Err(error) => Err(error),
    }
}

/// Calls `typst::utils::hash128` on the outcome of a load. That function
/// feeds the value to a SipHash-1-3 hasher with fixed keys, so on one
/// platform the result is a function of the outcome alone; this is all the
/// contract claims. Nothing is said of collisions.
#[verifier::external_body]
pub(crate) fn hash_raw(raw: &Result<Vec<u8>, FileError>) -> (fingerprint: u128)
    ensures
        fingerprint == content_hash(raw_view(*raw)),
{
    typst::utils::hash128(raw)
}

/// `copy` is what cloning `held` may give: a clone of the value, or the same
/// failure.
pub open spec fn result_cloned<T: Clone>(
    held: Result<T, FileError>,
    copy: Result<T, FileError>,
) -> bool {
    match (held, copy) {
        (Ok(a), Ok(b)) => cloned(a, b),
        (Err(e), Err(g)) => e == g,
        _ => false,
    }
}

/// Clones a processed result.
pub fn clone_result<T: Clone>(held: &Result<T, FileError>) -> (copy: Result<T, FileError>)
    ensures
        result_cloned(*held, copy),
{
    match held {
        Ok(value) => Ok(value.clone()),
        Err(error) => Err(error.clone()),
    }
}

/// Lazily processes data for a file.
///
/// Within one compilation the cell is read at most once; across compilations
/// it is reprocessed only when the fingerprint of what was loaded changes.
pub struct SlotCell<T> {
    /// The processed data.
    pub data: Option<Result<T, FileError>>,
    /// A hash of the raw file contents or access error.
    pub fingerprint: u128,
    /// Whether the cell has been accessed in the current compilation.
    pub accessed: bool,
}

impl<T: Clone> SlotCell<T> {
    /// The cell holds the value of the current compilation: a lookup is
    /// answered from it without a load.
    pub open spec fn is_current(self) -> bool {
        self.accessed && self.data is Some
    }

    /// The value last computed with success, which processing may reuse.
    pub open spec fn hint(self) -> Option<T> {
        match self.data {
            Some(Ok(value)) => Some(value),
            _ => None,
        }
    }

    /// A load with outcome `raw` leaves the processed data as it is.
    pub open spec fn unchanged_by(self, raw: Result<Seq<u8>, FileError>) -> bool {
        self.data is Some && self.fingerprint == content_hash(raw)
    }

    /// Creates a new, empty cell.
    pub fn new() -> (cell: Self)
        ensures
            cell.data is None,
            cell.fingerprint == 0,
            !cell.accessed,
    {
        SlotCell { data: None, fingerprint: 0, accessed: false }
    }

    /// Marks the cell as not yet accessed in preparation of the next
    /// compilation. Data and fingerprint stay.
    pub fn reset(&mut self)
        ensures
            !final(self).accessed,
            final(self).data == old(self).data,
            final(self).fingerprint == old(self).fingerprint,
    {
        self.accessed = false;
    }

    /// Gets the contents of the cell.
    pub fn get(&self) -> (contents: Option<&Result<T, FileError>>)
        ensures
            self.data is None ==> contents is None,
            self.data is Some ==> contents == Some(&self.data->0),
    {
        self.data.as_ref()
    }

    /// Fills the cell with processed data whose raw form has the given
    /// fingerprint, and marks it as accessed.
    pub fn init(&mut self, data: T, fingerprint: u128)
        ensures
            final(self).data == Some(Ok::<T, FileError>(data)),
            final(self).fingerprint == fingerprint,
            final(self).accessed,
    {
        self.data = Some(Ok(data));
        self.fingerprint = fingerprint;
        self.accessed = true;
    }

    /// What the cell serves without a load: its data, if it was accessed in
    /// this compilation.
    pub fn current(&self) -> (served: Option<Result<T, FileError>>)
        ensures
            self.is_current() ==> served is Some && result_cloned(self.data->0, served->0),
            !self.is_current() ==> served is None,
    {
        if self.accessed {
            match &self.data {
                Some(data) => Some(clone_result(data)),
                None => None,
            }
        } else {
            None
        }
    }

    /// What taking in the load outcome `raw` makes of the cell: the cell
    /// `after` and the value `served`.
    ///
    /// The cell is marked as accessed and its fingerprint becomes that of
    /// `raw`. If it held data with the same fingerprint, the data stays and a
    /// clone of it is served. Otherwise what is served is what `f` makes of
    /// the bytes and the last good value, or the failure of the load, and a
    /// clone of it becomes the data.
    pub open spec fn loaded<F: FnOnce(Vec<u8>, Option<T>) -> Result<T, FileError>>(
        self,
        raw: Result<Vec<u8>, FileError>,
        f: F,
        after: Self,
        served: Result<T, FileError>,
    ) -> bool {
        &&& after.accessed
        &&& after.fingerprint == content_hash(raw_view(raw))
        &&& if self.unchanged_by(raw_view(raw)) {
            after.data == self.data && result_cloned(self.data->0, served)
        } else {
            &&& after.data is Some
            &&& result_cloned(served, after.data->0)
            &&& match raw {
                Ok(bytes) => f.ensures((bytes, self.hint()), served),
                Err(error) => served == Err::<T, FileError>(error),
            }
        }
    }

    /// Takes in the outcome of a load, as `loaded` says. Where the
    /// fingerprint is unchanged, `f` is not called: it need not accept
    /// anything then. Afterwards the cell holds the value of the current
    /// compilation.
    pub fn update<F>(&mut self, raw: Result<Vec<u8>, FileError>, f: F) -> (served: Result<
        T,
        FileError,
    >) where F: FnOnce(Vec<u8>, Option<T>) -> Result<T, FileError>
        requires
            !old(self).unchanged_by(raw_view(raw)) && raw is Ok ==> f.requires(
                (raw->Ok_0, old(self).hint()),
            ),
        ensures
            old(self).loaded(raw, f, *final(self), served),
            final(self).is_current(),
    {
        self.accessed = true;
        let fingerprint = hash_raw(&raw);
        let previous = self.fingerprint;
        self.fingerprint = fingerprint;
        if previous == fingerprint {
            match &self.data {
                Some(data) => {
                    return clone_result(data);
                },
                None => {},
            }
        }
        let prev = match self.data.take() {
            Some(Ok(value)) => Some(value),
            _ => None,
        };
        let value = match raw {
            Ok(bytes) => f(bytes, prev),
            Err(error) => Err(error),
        };
        self.data = Some(clone_result(&value));
        value
    }

    /// Gets the contents of the cell or initializes them.
    ///
    /// A cell that holds the value of the current compilation answers from
    /// its data and stays as it is: `load` need not even be callable then.
    /// Otherwise `load` is called, once, and its outcome is taken in as
    /// `loaded` says. Either way the cell holds the value of the current
    /// compilation afterwards.
    pub fn get_or_init<L, F>(&mut self, load: L, f: F) -> (served: Result<T, FileError>) where
        L: FnOnce() -> Result<Vec<u8>, FileError>,
        F: FnOnce(Vec<u8>, Option<T>) -> Result<T, FileError>,

        requires
            !old(self).is_current() ==> load.requires(()),
            forall|bytes: Vec<u8>|
                {
                    &&& !old(self).is_current()
                    &&& load.ensures((), Ok::<Vec<u8>, FileError>(bytes))
                    &&& !old(self).unchanged_by(Ok(bytes@))
                } ==> #[trigger] f.requires((bytes, old(self).hint())),
        ensures
            final(self).is_current(),
            old(self).is_current() ==> {
                &&& *final(self) == *old(self)
                &&& result_cloned(old(self).data->0, served)
            },
            !old(self).is_current() ==> exists|raw: Result<Vec<u8>, FileError>|
                {
                    &&& #[trigger] load.ensures((), raw)
                    &&& old(self).loaded(raw, f, *final(self), served)
                },
    {
        match self.current() {
            Some(served) => served,
            None => {
                let raw = load();
                let ghost seen = raw;
                let served = self.update(raw, f);
                served
            },
        }
    }
}

} // verus!

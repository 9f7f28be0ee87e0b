//! The session connection: exclusive owner of the native display handle.
//! It is opened by [`Display::new`] and released exactly once by
//! [`Display::close`], which consumes it; consuming also guarantees that no
//! dependent resource can name a live `Display` afterwards, so the session
//! is always the last thing released.

use vstd::prelude::*;

use crate::Error;
use crate::backend::Backend;
use crate::backend::Call;

verus! {

/// An open session with the native windowing service. Holds the one native
/// display handle; the handle cannot be copied out, and the only release
/// path consumes the value, so the handle is closed exactly once.
pub struct Display {
    handle: u64,
}

impl Display {
    /// An open session always holds a non-null handle.
    #[verifier::type_invariant]
    pub closed spec fn wf(self) -> bool {
        self.handle != 0
    }

    /// The native session handle.
    pub closed spec fn id(&self) -> u64 {
        self.handle
    }

    /// The native session handle, as a value. The session keeps ownership;
    /// the handle is only good for naming the session in requests.
    pub(crate) fn id_value(&self) -> (r: u64)
        ensures
            r == self.id(),
    {
        self.handle
    }

    /// Open a session, optionally naming which display to reach. Fails
    /// with [`Error::ConnectionFailed`] exactly when the native side hands
    /// back a null handle; on success the returned session owns the handle
    /// the trace records.
    pub fn new<B: Backend>(backend: &mut B, path: Option<&str>) -> (r: Result<Display, Error>)
        ensures
            match r {
                Ok(d) => {
                    &&& d.id() != 0
                    &&& final(backend).calls() == old(backend).calls().push(
                        (Call::OpenDisplay { result: d.id() }),
                    )
                },
                Err(e) => {
                    &&& e == Error::ConnectionFailed
                    &&& final(backend).calls() == old(backend).calls().push(
                        (Call::OpenDisplay { result: 0 }),
                    )
                },
            },
    {
        let handle = backend.open_display(path);
        if handle == 0 {
            Err(Error::ConnectionFailed)
        } else {
            Ok(Display { handle })
        }
    }

    /// Block until the native side has processed every queued request.
    pub fn sync<B: Backend>(&self, backend: &mut B)
        ensures
            final(backend).calls() == old(backend).calls().push(
                (Call::Sync { display: self.id() }),
            ),
    {
        backend.sync(self.handle);
    }

    /// Push queued requests to the native side without blocking.
    pub fn flush<B: Backend>(&self, backend: &mut B)
        ensures
            final(backend).calls() == old(backend).calls().push(
                (Call::Flush { display: self.id() }),
            ),
    {
        backend.flush(self.handle);
    }

    /// Release the session. Consumes the connection, so this is the single
    /// close over its lifetime, and nothing scoped to it can be released
    /// after it.
    pub fn close<B: Backend>(self, backend: &mut B)
        ensures
            final(backend).calls() == old(backend).calls().push(
                (Call::CloseDisplay { display: self.id() }),
            ),
    {
        backend.close_display(self.handle);
    }
}

} // verus!

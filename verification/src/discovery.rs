use vstd::prelude::*;

use crate::driver::{BacklightDriver, BacklightError};

verus! {

/// Discovers backlight devices controllable by a particular driver backend.
///
/// Each driver backend has its own scanner implementation, returning one
/// driver instance per device it finds.
pub trait DeviceScanner {
    /// The concrete driver type this scanner discovers devices for.
    type Driver: BacklightDriver + 'static;

    /// Discover all devices currently available for this driver backend.
    fn scan(&self) -> Result<Vec<Self::Driver>, BacklightError>;

    /// Like [`scan`](Self::scan), but with each device boxed as a
    /// `dyn BacklightDriver` so it can be mixed with devices from other
    /// driver backends.
    fn scan_boxed(&self) -> (r: Result<Vec<Box<dyn BacklightDriver>>, BacklightError>)
        ensures
            exists|s: Result<Vec<Self::Driver>, BacklightError>|
                call_ensures(Self::scan, (self,), s) && (s is Ok <==> r is Ok) && (s matches Err(e) ==> r == Err::<
                    Vec<Box<dyn BacklightDriver>>,
                    BacklightError,
                >(e)) && (s matches Ok(v) ==> r->Ok_0@.len() == v@.len()),
    {
        let found = self.scan();
        match found {
            Err(e) => Err(e),
            Ok(v) => {
                let ghost n = v@.len();
                let mut rest = v;
                let mut boxed: Vec<Box<dyn BacklightDriver>> = Vec::new();
                while rest.len() > 0
                    invariant
                        boxed@.len() + rest@.len() == n,
                    decreases rest@.len(),
                {
                    let d = rest.remove(0);
                    let ghost before = boxed@;
                    let b: Box<dyn BacklightDriver> = Box::new(d);
                    boxed.push(b);
                    proof {
                        vstd::seq::axiom_seq_push_len(before, b);
                    }
                }
                Ok(boxed)
            },
        }
    }
}

} // verus!

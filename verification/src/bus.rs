//! Bus abstraction: a blocking, register-addressed two-wire transport.
//!
//! The driver is generic over an [`I2cBus`]. The trait carries a ghost
//! history of the transactions completed on the bus, so that every driver
//! operation can state exactly which register writes and reads it performs.
//! [`ScriptBus`] is a verified in-memory implementation replaying a fixed
//! script, for tests and simulation; implementations for real hardware
//! live outside the verified core.

use vstd::prelude::*;

verus! {

/// One completed transaction on the bus, as recorded in the ghost
/// transaction history of an [`I2cBus`].
pub enum BusOp {
    /// The byte `value` was written to register `reg` of the device at bus
    /// address `addr`.
    Write { addr: u8, reg: u8, value: u8 },
    /// The bytes `data` were read starting at register `reg` of the device
    /// at bus address `addr`.
    Read { addr: u8, reg: u8, data: Seq<u8> },
}

/// A blocking register-addressed two-wire bus.
///
/// Both primitives either complete their transaction and append it to the
/// ghost history `ops()`, or fail with the transport's error type and
/// leave the history unchanged. Nothing is promised about the data a read
/// returns: the device on the other end is free to answer anything.
pub trait I2cBus: Sized {
    /// Opaque transport error.
    type BusError;

    /// The history of transactions completed on this bus, oldest first.
    ///
    /// An implementation inside the verified world defines this over its
    /// own state, as [`ScriptBus`] does. An implementation outside it (a
    /// hardware bus, whose code Verus never sees) has no definition to
    /// give and leaves the default; nothing is proved about such a bus
    /// either way.
    open spec fn ops(&self) -> Seq<BusOp> {
        Seq::empty()
    }

    /// Write `value` to register `reg` of the device at address `addr`.
    fn write_register(&mut self, addr: u8, reg: u8, value: u8) -> (r: Result<
        (),
        Self::BusError,
    >)
        ensures
            match r {
                Ok(()) => final(self).ops() == old(self).ops().push(
                    BusOp::Write { addr, reg, value },
                ),
                Err(_) => final(self).ops() == old(self).ops(),
            },
    ;

    /// Read `n` bytes starting at register `reg` of the device at address
    /// `addr`.
    fn read_registers(&mut self, addr: u8, reg: u8, n: usize) -> (r: Result<
        Vec<u8>,
        Self::BusError,
    >)
        ensures
            match r {
                Ok(data) => data@.len() == n && final(self).ops() == old(self).ops().push(
                    BusOp::Read { addr, reg, data: data@ },
                ),
                Err(_) => final(self).ops() == old(self).ops(),
            },
    ;
}

/// One scripted bus transaction, the executable counterpart of [`BusOp`].
#[derive(Debug)]
pub enum BusTx {
    /// Expect a write of `value` to register `reg` at address `addr`.
    Write { addr: u8, reg: u8, value: u8 },
    /// Expect a read of `data.len()` bytes from register `reg` at address
    /// `addr`, and answer it with `data`.
    Read { addr: u8, reg: u8, data: Vec<u8> },
}

impl View for BusTx {
    type V = BusOp;

    open spec fn view(&self) -> BusOp {
        match self {
            BusTx::Write { addr, reg, value } => BusOp::Write {
                addr: *addr,
                reg: *reg,
                value: *value,
            },
            BusTx::Read { addr, reg, data } => BusOp::Read {
                addr: *addr,
                reg: *reg,
                data: data@,
            },
        }
    }
}

/// Error of the [`ScriptBus`]: the driver attempted a transaction that
/// differs from the next scripted one, or ran past the end of the script.
#[derive(Debug, Clone, Copy, PartialEq, Eq)]
pub struct ScriptMismatch;

/// A deterministic in-memory bus replaying a fixed script of expected
/// transactions: writes must match the script byte for byte, reads are
/// answered with the scripted data, and any deviation fails with
/// [`ScriptMismatch`] without being recorded.
pub struct ScriptBus {
    script: Vec<BusTx>,
    next: usize,
}

impl ScriptBus {
    #[verifier::type_invariant]
    spec fn wf(self) -> bool {
        self.next <= self.script@.len()
    }

    /// The scripted transactions not yet replayed.
    pub closed spec fn pending(&self) -> Seq<BusOp> {
        self.script@.skip(self.next as int).map(|i: int, t: BusTx| t@)
    }

    /// Start a bus that expects exactly the transactions of `script`, in
    /// order.
    pub fn new(script: Vec<BusTx>) -> (r: ScriptBus)
        ensures
            r.ops() == Seq::<BusOp>::empty(),
            r.pending() == script@.map(|i: int, t: BusTx| t@),
    {
        let r = ScriptBus { script, next: 0 };
        proof {
            assert(r.script@.take(0int).map(|i: int, t: BusTx| t@) =~= Seq::<BusOp>::empty());
            assert(r.script@.skip(0int) =~= r.script@);
        }
        r
    }

    /// True when the whole script has been replayed.
    pub fn exhausted(&self) -> (r: bool)
        ensures
            r == (self.pending().len() == 0),
    {
        proof {
            use_type_invariant(self);
        }
        self.next >= self.script.len()
    }
}

impl I2cBus for ScriptBus {
    type BusError = ScriptMismatch;

    closed spec fn ops(&self) -> Seq<BusOp> {
        self.script@.take(self.next as int).map(|i: int, t: BusTx| t@)
    }

    fn write_register(&mut self, addr: u8, reg: u8, value: u8) -> (r: Result<
        (),
        ScriptMismatch,
    >) {
        proof {
            use_type_invariant(&*self);
        }
        if self.next < self.script.len() {
            let matched: bool = match vstd::slice::slice_index_get(
                self.script.as_slice(),
                self.next,
            ) {
                BusTx::Write { addr: a, reg: rg, value: v } => *a == addr && *rg == reg && *v
                    == value,
                _ => false,
            };
            if matched {
                self.next = self.next + 1;
                proof {
                    assert(self.script@.take(self.next as int).map(|i: int, t: BusTx| t@)
                        =~= old(self).script@.take(old(self).next as int).map(
                        |i: int, t: BusTx| t@,
                    ).push(BusOp::Write { addr, reg, value }));
                }
                return Ok(());
            }
        }
        Err(ScriptMismatch)
    }

    fn read_registers(&mut self, addr: u8, reg: u8, n: usize) -> (r: Result<
        Vec<u8>,
        ScriptMismatch,
    >) {
        proof {
            use_type_invariant(&*self);
        }
        if self.next < self.script.len() {
            let matched: bool = match vstd::slice::slice_index_get(
                self.script.as_slice(),
                self.next,
            ) {
                BusTx::Read { addr: a, reg: rg, data } => *a == addr && *rg == reg && data.len()
                    == n,
                _ => false,
            };
            if matched {
                let mut out: Vec<u8> = Vec::new();
                let mut i: usize = 0;
                let ghost scripted: Seq<u8> = self.script@[self.next as int]->Read_data@;
                while i < n
                    invariant
                        out@.len() == i,
                        i <= n,
                        self.next < self.script@.len(),
                        n == scripted.len(),
                        self.script@[self.next as int] matches BusTx::Read {
                            data: d,
                            ..
                        } && d@ == scripted,
                        out@ == scripted.take(i as int),
                    decreases n - i,
                {
                    let b: u8 = match vstd::slice::slice_index_get(
                        self.script.as_slice(),
                        self.next,
                    ) {
                        BusTx::Read { data, .. } => *vstd::slice::slice_index_get(
                            data.as_slice(),
                            i,
                        ),
                        _ => 0,
                    };
                    out.push(b);
                    i = i + 1;
                    proof {
                        assert(out@ =~= scripted.take(i as int));
                    }
                }
                self.next = self.next + 1;
                proof {
                    assert(out@ =~= scripted);
                    assert(self.script@.take(self.next as int).map(|i: int, t: BusTx| t@)
                        =~= old(self).script@.take(old(self).next as int).map(
                        |i: int, t: BusTx| t@,
                    ).push(BusOp::Read { addr, reg, data: out@ }));
                }
                return Ok(out);
            }
        }
        Err(ScriptMismatch)
    }
}

} // verus!

use vstd::prelude::*;
use crate::hardware_interrupts::InterruptIndex;

verus! {

/// First vector of the remapped primary interrupt controller.
pub const PIC_1_OFFSET: u8 = 32;

/// First vector of the remapped secondary interrupt controller.
pub const PIC_2_OFFSET: u8 = PIC_1_OFFSET + 8;

/// Number of interrupt vectors a descriptor table has.
pub const IDT_SLOTS: usize = 256;

/// One registered interrupt handler: the vector it serves and a token
/// naming the handler routine. The runtime shell maps tokens to the actual
/// routines when it commits the table to hardware.
#[derive(Debug, Clone, Copy, PartialEq, Eq, Structural)]
pub struct InterruptHandler {
    /// The vector this handler serves.
    pub index: u8,
    /// The token of the handler routine.
    pub handler: u64,
}

impl InterruptHandler {
    /// Creates a handler entry for one of the hardware interrupt vectors.
    pub fn new(index: InterruptIndex, handler: u64) -> (h: InterruptHandler)
        ensures
            h.index == index.as_u8_spec(),
            h.handler == handler,
    {
        InterruptHandler { index: index.as_u8(), handler }
    }

    /// Creates a handler entry for an arbitrary vector number.
    pub fn new_unchecked(index: u8, handler: u64) -> (h: InterruptHandler)
        ensures
            h == (InterruptHandler { index, handler }),
    {
        InterruptHandler { index, handler }
    }
}

/// The error a rejected registration reports: the table is already
/// committed to hardware, so a late change would be silently ineffective.
#[derive(Debug, Clone, Copy, PartialEq, Eq, Structural)]
pub enum IdtError {
    AlreadyLoaded,
}

/// Model of the hardware descriptor table: which handler token each vector
/// holds, and which deferred loader routines have been applied, in order.
pub struct DescriptorTable {
    /// The handler token each vector dispatches to, where one is set.
    pub entries: Vec<Option<u64>>,
    /// Tokens of the deferred loader routines applied to this table, oldest
    /// first.
    pub applied_loaders: Vec<u64>,
}

impl DescriptorTable {
    /// The table has one slot per vector.
    pub open spec fn wf(self) -> bool {
        self.entries@.len() == IDT_SLOTS
    }

    /// Creates an empty table: no handlers, no loaders applied.
    pub fn new() -> (t: DescriptorTable)
        ensures
            t.wf(),
            forall|i: int| 0 <= i < IDT_SLOTS ==> t.entries@[i] is None,
            t.applied_loaders@ == Seq::<u64>::empty(),
    {
        let mut entries: Vec<Option<u64>> = Vec::new();
        let mut i: usize = 0;
        while i < IDT_SLOTS
            invariant
                i <= IDT_SLOTS,
                entries@.len() == i,
                forall|p: int| 0 <= p < i ==> entries@[p] is None,
            decreases IDT_SLOTS - i,
        {
            entries.push(None);
            i = i + 1;
        }
        DescriptorTable { entries, applied_loaders: Vec::new() }
    }
}

/// The vector entries after every registered handler is applied: slots with
/// a handler take its token, the rest keep what they had.
pub open spec fn apply_handlers_spec(
    entries: Seq<Option<u64>>,
    handlers: Seq<Option<InterruptHandler>>,
) -> Seq<Option<u64>> {
    Seq::new(
        entries.len(),
        |i: int|
            match handlers[i] {
                Some(h) => Some(h.handler),
                None => entries[i],
            },
    )
}

/// The loader tokens among the first `k` slots, in slot order.
pub open spec fn loaders_list_spec(lf: Seq<Option<u64>>, k: int) -> Seq<u64>
    decreases k,
{
    if k <= 0 {
        Seq::empty()
    } else {
        loaders_list_spec(lf, k - 1) + match lf[k - 1] {
            Some(v) => seq![v],
            None => Seq::empty(),
        }
    }
}

/// The build-once registry for the interrupt descriptor table. Handlers and
/// deferred loader routines are registered while the table is unloaded;
/// `load` commits them to the hardware table exactly once, after which the
/// registry refuses further registration.
pub struct IdtLoader {
    /// Direct handlers, one optional entry per vector; an entry at slot `i`
    /// serves vector `i`.
    pub handlers: Vec<Option<InterruptHandler>>,
    /// Deferred loader routine tokens, filled front to back.
    pub loader_fns: Vec<Option<u64>>,
    /// Number of deferred loaders registered.
    pub fndex: usize,
    /// Whether the table has been committed to hardware.
    pub is_loaded: bool,
}

impl IdtLoader {
    /// The registry invariant: full slot arrays, the loader count in range,
    /// and every handler filed under its own vector.
    pub open spec fn wf(self) -> bool {
        &&& self.handlers@.len() == IDT_SLOTS
        &&& self.loader_fns@.len() == IDT_SLOTS
        &&& self.fndex <= IDT_SLOTS
        &&& forall|i: int|
            0 <= i < IDT_SLOTS ==> ((#[trigger] self.handlers@[i]) matches Some(h) ==> h.index
                == i)
    }

    /// Creates an empty, unloaded registry.
    pub fn new() -> (l: IdtLoader)
        ensures
            l.wf(),
            !l.is_loaded,
            l.fndex == 0,
            forall|i: int| 0 <= i < IDT_SLOTS ==> l.handlers@[i] is None,
            forall|i: int| 0 <= i < IDT_SLOTS ==> l.loader_fns@[i] is None,
    {
        let mut handlers: Vec<Option<InterruptHandler>> = Vec::new();
        let mut loader_fns: Vec<Option<u64>> = Vec::new();
        let mut i: usize = 0;
        while i < IDT_SLOTS
            invariant
                i <= IDT_SLOTS,
                handlers@.len() == i,
                loader_fns@.len() == i,
                forall|p: int| 0 <= p < i ==> handlers@[p] is None,
                forall|p: int| 0 <= p < i ==> loader_fns@[p] is None,
            decreases IDT_SLOTS - i,
        {
            handlers.push(None);
            loader_fns.push(None);
            i = i + 1;
        }
        IdtLoader { handlers, loader_fns, fndex: 0, is_loaded: false }
    }

    /// Commits the registry to the hardware table: applies every registered
    /// handler to its vector, then applies every deferred loader, in slot
    /// order, and marks the registry loaded. Once loaded, further calls
    /// leave both the registry and the table exactly as the first call
    /// produced them.
    pub fn load(&mut self, idt: &mut DescriptorTable)
        requires
            old(self).wf(),
            old(idt).wf(),
        ensures
            final(self).wf(),
            final(idt).wf(),
            final(self).is_loaded,
            final(self).handlers == old(self).handlers,
            final(self).loader_fns == old(self).loader_fns,
            final(self).fndex == old(self).fndex,
            old(self).is_loaded ==> final(idt).entries == old(idt).entries
                && final(idt).applied_loaders == old(idt).applied_loaders,
            !old(self).is_loaded ==> final(idt).entries@ == apply_handlers_spec(
                old(idt).entries@,
                old(self).handlers@,
            ) && final(idt).applied_loaders@ == old(idt).applied_loaders@ + loaders_list_spec(
                old(self).loader_fns@,
                IDT_SLOTS as int,
            ),
    {
        if self.is_loaded {
            return ;
        }
        let ghost e0 = idt.entries@;
        let mut i: usize = 0;
        while i < IDT_SLOTS
            invariant
                i <= IDT_SLOTS,
                self == old(self),
                !self.is_loaded,
                self.wf(),
                idt.wf(),
                idt.applied_loaders == old(idt).applied_loaders,
                e0 == old(idt).entries@,
                e0.len() == IDT_SLOTS,
                forall|p: int|
                    0 <= p < i ==> #[trigger] idt.entries@[p] == apply_handlers_spec(
                        e0,
                        self.handlers@,
                    )[p],
                forall|p: int| i <= p < IDT_SLOTS ==> #[trigger] idt.entries@[p] == e0[p],
            decreases IDT_SLOTS - i,
        {
            match self.handlers[i] {
                Some(h) => {
                    idt.entries[h.index as usize] = Some(h.handler);
                    proof {
                        assert(h.index as int == i);
                    }
                },
                None => {},
            }
            i = i + 1;
        }
        proof {
            assert(idt.entries@ =~= apply_handlers_spec(e0, self.handlers@));
        }
        let ghost l0 = idt.applied_loaders@;
        let mut j: usize = 0;
        while j < IDT_SLOTS
            invariant
                j <= IDT_SLOTS,
                self == old(self),
                !self.is_loaded,
                self.wf(),
                idt.wf(),
                idt.entries@ == apply_handlers_spec(e0, self.handlers@),
                e0 == old(idt).entries@,
                e0.len() == IDT_SLOTS,
                l0 == old(idt).applied_loaders@,
                idt.applied_loaders@ == l0 + loaders_list_spec(self.loader_fns@, j as int),
            decreases IDT_SLOTS - j,
        {
            match self.loader_fns[j] {
                Some(v) => {
                    idt.applied_loaders.push(v);
                    proof {
                        assert(idt.applied_loaders@ =~= l0 + loaders_list_spec(
                            self.loader_fns@,
                            j as int + 1,
                        ));
                    }
                },
                None => {
                    proof {
                        assert(idt.applied_loaders@ =~= l0 + loaders_list_spec(
                            self.loader_fns@,
                            j as int + 1,
                        ));
                    }
                },
            }
            j = j + 1;
        }
        self.is_loaded = true;
    }

    /// Registers a handler on its vector; the last registration of a vector
    /// wins. Registering after the table is loaded is a lifecycle defect
    /// and is ruled out here; callers that must cope at run time use
    /// `try_add_handler`.
    pub fn add_handler(&mut self, handler: InterruptHandler)
        requires
            old(self).wf(),
            !old(self).is_loaded,
        ensures
            final(self).wf(),
            final(self).is_loaded == old(self).is_loaded,
            final(self).loader_fns == old(self).loader_fns,
            final(self).fndex == old(self).fndex,
            final(self).handlers@ == old(self).handlers@.update(
                handler.index as int,
                Some(handler),
            ),
    {
        self.handlers[handler.index as usize] = Some(handler);
    }

    /// Registers a handler, reporting the fatal condition instead of
    /// aborting: after the table is loaded the registration is refused and
    /// nothing changes.
    pub fn try_add_handler(&mut self, handler: InterruptHandler) -> (r: Result<(), IdtError>)
        requires
            old(self).wf(),
        ensures
            final(self).wf(),
            final(self).is_loaded == old(self).is_loaded,
            r is Ok <==> !old(self).is_loaded,
            old(self).is_loaded ==> r == Result::<(), IdtError>::Err(IdtError::AlreadyLoaded)
                && *final(self) == *old(self),
            !old(self).is_loaded ==> final(self).handlers@ == old(self).handlers@.update(
                handler.index as int,
                Some(handler),
            ) && final(self).loader_fns == old(self).loader_fns && final(self).fndex == old(
                self,
            ).fndex,
    {
        if self.is_loaded {
            Err(IdtError::AlreadyLoaded)
        } else {
            self.add_handler(handler);
            Ok(())
        }
    }

    /// Registers a handler token directly under a raw vector number.
    pub fn add_raw_unchecked(&mut self, index: u8, handler: u64)
        requires
            old(self).wf(),
            !old(self).is_loaded,
        ensures
            final(self).wf(),
            final(self).is_loaded == old(self).is_loaded,
            final(self).loader_fns == old(self).loader_fns,
            final(self).fndex == old(self).fndex,
            final(self).handlers@ == old(self).handlers@.update(
                index as int,
                Some(InterruptHandler { index, handler }),
            ),
    {
        self.add_handler(InterruptHandler::new_unchecked(index, handler));
    }

    /// Registers a handler token under one of the hardware interrupt
    /// vectors.
    pub fn add_raw(&mut self, index: InterruptIndex, handler: u64)
        requires
            old(self).wf(),
            !old(self).is_loaded,
        ensures
            final(self).wf(),
            final(self).is_loaded == old(self).is_loaded,
            final(self).loader_fns == old(self).loader_fns,
            final(self).fndex == old(self).fndex,
            final(self).handlers@ == old(self).handlers@.update(
                index.as_u8_spec() as int,
                Some(InterruptHandler { index: index.as_u8_spec(), handler }),
            ),
    {
        self.add_handler(InterruptHandler::new(index, handler));
    }

    /// Registers a deferred loader routine, applied at load time after the
    /// direct handlers; used for handlers that need extra table setup.
    pub fn add_handler_fn(&mut self, fun: u64)
        requires
            old(self).wf(),
            !old(self).is_loaded,
            old(self).fndex < IDT_SLOTS,
        ensures
            final(self).wf(),
            final(self).is_loaded == old(self).is_loaded,
            final(self).handlers == old(self).handlers,
            final(self).fndex == old(self).fndex + 1,
            final(self).loader_fns@ == old(self).loader_fns@.update(
                old(self).fndex as int,
                Some(fun),
            ),
    {
        self.loader_fns[self.fndex] = Some(fun);
        self.fndex = self.fndex + 1;
    }
}

} // verus!

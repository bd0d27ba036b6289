//! The unwind-frame registry: call-frame information for JIT code handed to
//! the platform stack-unwinder, lifecycle-ordered to match the unwinder's
//! internal structure.
//!
//! The registry decides which frame descriptors are handed to the platform
//! unwinder, in which order, and in which order they are taken back at
//! teardown; the actual registration calls are two foreign functions of the
//! platform unwinder and are performed by the unverified platform glue from
//! the address lists computed here.
//!
//! The platform unwinder stores registered frame entries as a reverse-sorted
//! linked list, so deregistering in reverse insertion order pops the head of
//! that list each time; deregistering in insertion order would be quadratic.
//! This is an external-system constraint and is preserved exactly:
//! [`UnwindRegistry::discard`] yields the registrations in exact reverse
//! insertion order, unconditionally once published.

use vstd::prelude::*;

verus! {

/// The unwind-metadata encodings a compiler backend may hand over. Only the
/// cross-platform call-frame-information encoding is supported here; any
/// other encoding is rejected when a function is registered.
#[derive(Clone, Debug)]
pub enum UnwindInfo {
    /// Call-frame information in the common cross-platform binary format.
    Dwarf,
    /// A platform-specific unwind-data encoding this registry does not
    /// support; the payload is the encoded unwind data.
    WindowsX64(Vec<u8>),
}

/// How the platform's frame-registration primitive consumes a frame table.
/// This is a genuine platform ABI difference, not a choice of this registry.
#[derive(Clone, Copy, Debug, PartialEq, Eq, Structural)]
pub enum FrameTableWalk {
    /// The primitive takes one frame-descriptor entry at a time: the table
    /// of length-prefixed entries is walked here, the leading common
    /// information entry is skipped, and every following entry is
    /// registered individually.
    EntryPerFde,
    /// The primitive takes the table start and walks the entries itself
    /// until a zero-length terminator: a single registration.
    WholeTable,
}

/// The four-byte little-endian length prefix at `pos`.
pub open spec fn read_len_prefix(bytes: Seq<u8>, pos: int) -> int
    recommends
        0 <= pos,
        pos + 4 <= bytes.len(),
{
    bytes[pos] + 256 * bytes[pos + 1] + 65536 * bytes[pos + 2] + 16777216 * bytes[pos + 3]
}

/// A frame table is well formed when walking its length-prefixed entries
/// from `pos` lands exactly on the end of the table, every length prefix
/// lying fully inside it. (The four prefix bytes are not counted by the
/// prefix itself.)
pub open spec fn wf_frame_table_from(bytes: Seq<u8>, pos: int) -> bool
    decreases bytes.len() - pos,
{
    if pos == bytes.len() {
        true
    } else if pos < 0 || pos + 4 > bytes.len() {
        false
    } else {
        let next = pos + 4 + read_len_prefix(bytes, pos);
        if next <= bytes.len() {
            wf_frame_table_from(bytes, next)
        } else {
            false
        }
    }
}

/// The addresses an entry-per-descriptor walk registers, walking from
/// `pos`: one address per entry start, except that the entry at the very
/// start of the table (the common information entry) is skipped.
pub open spec fn entry_addresses_from(bytes: Seq<u8>, pos: int, base: int, first: bool) -> Seq<
    usize,
>
    decreases bytes.len() - pos,
{
    if pos < 0 || pos + 4 > bytes.len() {
        Seq::empty()
    } else {
        let next = pos + 4 + read_len_prefix(bytes, pos);
        let rest = if next <= bytes.len() {
            entry_addresses_from(bytes, next, base, false)
        } else {
            Seq::empty()
        };
        if first {
            rest
        } else {
            seq![((base + pos) as usize)] + rest
        }
    }
}

/// The frame-descriptor addresses one published frame table contributes,
/// for a table whose bytes live at `base`.
pub open spec fn frame_registrations(walk: FrameTableWalk, bytes: Seq<u8>, base: int) -> Seq<
    usize,
> {
    match walk {
        FrameTableWalk::EntryPerFde => entry_addresses_from(bytes, 0, base, true),
        FrameTableWalk::WholeTable => seq![(base as usize)],
    }
}

/// A registry of function unwind information for one contiguous block of
/// JIT code: unpublished while the module is being built, published exactly
/// once, then torn down.
pub struct UnwindRegistry {
    registrations: Vec<usize>,
    published: bool,
}

impl UnwindRegistry {
    /// The frame-descriptor addresses handed to the platform unwinder, in
    /// insertion order.
    pub closed spec fn registrations(self) -> Seq<usize> {
        self.registrations@
    }

    pub closed spec fn is_published(self) -> bool {
        self.published
    }

    /// Creates a new, unpublished registry.
    pub fn new() -> (r: UnwindRegistry)
        ensures
            !r.is_published(),
            r.registrations().len() == 0,
    {
        UnwindRegistry { registrations: Vec::new(), published: false }
    }

    /// Registers a function given its start offset, length, and unwind
    /// information. Valid only before the registry is published, and only
    /// for the one supported unwind-metadata encoding: anything else is a
    /// broken compiler contract, reported as a construction error.
    pub fn register(
        &mut self,
        _base_address: usize,
        _func_start: u32,
        _func_len: u32,
        info: &UnwindInfo,
    ) -> (r: Result<(), String>)
        ensures
            *final(self) == *old(self),
            (r is Ok) <==> (!old(self).is_published() && info is Dwarf),
            r matches Err(m) ==> (if old(self).is_published() {
                m@ == "unwind registry has already been published"@
            } else {
                m@ == "unsupported unwind information"@
            }),
    {
        if self.published {
            return Err("unwind registry has already been published".to_string());
        }
        match info {
            UnwindInfo::Dwarf => Ok(()),
            _ => Err("unsupported unwind information".to_string()),
        }
    }

    /// Publishes all registered functions: transitions to published exactly
    /// once — a second publication fails — and, when a frame table is
    /// present, walks it as the platform convention demands and records
    /// each frame-descriptor address in insertion order. `frame_base` is
    /// the address at which the table's bytes are installed. The recorded
    /// addresses are handed back, in insertion order, for the platform glue
    /// to pass to the unwinder's registration primitive one by one.
    pub fn publish(
        &mut self,
        eh_frame: Option<&[u8]>,
        frame_base: usize,
        walk: FrameTableWalk,
    ) -> (r: Result<Vec<usize>, String>)
        requires
            eh_frame matches Some(frame) ==> frame_base + frame@.len()
                <= usize::MAX && (walk is EntryPerFde ==> wf_frame_table_from(frame@, 0)),
        ensures
            old(self).is_published() ==> {
                &&& *final(self) == *old(self)
                &&& r matches Err(m) && m@ == "unwind registry has already been published"@
            },
            !old(self).is_published() ==> {
                &&& final(self).is_published()
                &&& r matches Ok(regs) && regs@ == (match eh_frame {
                    Some(frame) => frame_registrations(walk, frame@, frame_base as int),
                    None => Seq::<usize>::empty(),
                })
                &&& r matches Ok(regs) && final(self).registrations() == old(
                    self,
                ).registrations() + regs@
            },
    {
        if self.published {
            return Err("unwind registry has already been published".to_string());
        }
        let regs: Vec<usize> = match eh_frame {
            Some(frame) => walk_frame_table(frame, frame_base, walk),
            None => Vec::new(),
        };
        let n = regs.len();
        let mut i: usize = 0;
        while i < n
            invariant
                n == regs@.len(),
                i <= n,
                self.published == old(self).published,
                self.registrations@ == old(self).registrations@ + regs@.subrange(0, i as int),
            decreases n - i,
        {
            self.registrations.push(regs[i]);
            proof {
                assert(regs@.subrange(0, i + 1) =~= regs@.subrange(0, i as int) + seq![
                    regs@[i as int],
                ]);
            }
            i = i + 1;
        }
        proof {
            assert(regs@.subrange(0, n as int) =~= regs@);
        }
        self.published = true;
        Ok(regs)
    }

    /// Tears the registry down: yields every recorded frame-descriptor
    /// address strictly in reverse insertion order, for the platform glue
    /// to deregister one by one. Once published, the yield is unconditional
    /// — however teardown was reached — and an unpublished registry has
    /// nothing to deregister.
    pub fn discard(self) -> (order: Vec<usize>)
        ensures
            self.is_published() ==> order@ == self.registrations().reverse(),
            !self.is_published() ==> order@.len() == 0,
    {
        let mut order: Vec<usize> = Vec::new();
        if !self.published {
            return order;
        }
        let n = self.registrations.len();
        let mut i: usize = 0;
        while i < n
            invariant
                n == self.registrations().len(),
                i <= n,
                order@.len() == i,
                forall|j: int| 0 <= j < i ==> order@[j] == self.registrations()[n - 1 - j],
            decreases n - i,
        {
            order.push(self.registrations[n - 1 - i]);
            i = i + 1;
        }
        proof {
            assert(order@ =~= self.registrations().reverse());
        }
        order
    }
}

/// Decides whether a frame table is well formed for the entry-per-descriptor
/// walk: every length prefix lies fully inside the table and the walk lands
/// exactly on the table's end. Malformed metadata from a compiler backend is
/// detected here instead of being walked out of bounds.
pub fn check_frame_table(eh_frame: &[u8]) -> (b: bool)
    ensures
        b == wf_frame_table_from(eh_frame@, 0),
{
    let len = eh_frame.len();
    let mut current: usize = 0;
    while current < len
        invariant
            len == eh_frame@.len(),
            current <= len,
            wf_frame_table_from(eh_frame@, 0) == wf_frame_table_from(eh_frame@, current as int),
        decreases len - current,
    {
        if len - current < 4 {
            return false;
        }
        let entry_len = read_len_prefix_exec(eh_frame, current);
        if entry_len as usize > len - current - 4 {
            return false;
        }
        current = current + 4 + entry_len as usize;
    }
    true
}

/// Walks one frame table as the platform convention demands and collects
/// the addresses the platform unwinder is to be handed, in registration
/// order, as `frame_registrations` says.
fn walk_frame_table(eh_frame: &[u8], frame_base: usize, walk: FrameTableWalk) -> (regs: Vec<
    usize,
>)
    requires
        frame_base + eh_frame@.len() <= usize::MAX,
        walk is EntryPerFde ==> wf_frame_table_from(eh_frame@, 0),
    ensures
        regs@ == frame_registrations(walk, eh_frame@, frame_base as int),
{
    let mut regs: Vec<usize> = Vec::new();
    match walk {
        FrameTableWalk::WholeTable => {
            regs.push(frame_base);
            proof {
                assert(regs@ =~= seq![frame_base]);
            }
        },
        FrameTableWalk::EntryPerFde => {
            let len = eh_frame.len();
            let mut current: usize = 0;
            while current < len
                invariant
                    len == eh_frame@.len(),
                    frame_base + len <= usize::MAX,
                    current <= len,
                    wf_frame_table_from(eh_frame@, current as int),
                    regs@ + entry_addresses_from(
                        eh_frame@,
                        current as int,
                        frame_base as int,
                        current == 0,
                    ) == entry_addresses_from(eh_frame@, 0, frame_base as int, true),
                decreases len - current,
            {
                let entry_len = read_len_prefix_exec(eh_frame, current);
                if current != 0 {
                    regs.push(frame_base + current);
                }
                proof {
                    let bytes = eh_frame@;
                    let pos = current as int;
                    let next = pos + 4 + read_len_prefix(bytes, pos);
                    assert(wf_frame_table_from(bytes, next));
                    if pos != 0 {
                        assert(entry_addresses_from(bytes, pos, frame_base as int, false)
                            == seq![((frame_base + pos) as usize)] + entry_addresses_from(
                            bytes,
                            next,
                            frame_base as int,
                            false,
                        ));
                    }
                }
                current = current + 4 + entry_len as usize;
            }
            proof {
                assert(entry_addresses_from(
                    eh_frame@,
                    current as int,
                    frame_base as int,
                    current == 0,
                ) =~= Seq::<usize>::empty());
                assert(regs@ =~= entry_addresses_from(eh_frame@, 0, frame_base as int, true));
            }
        },
    }
    regs
}

/// Reads the four-byte length prefix at `pos` from a frame table.
fn read_len_prefix_exec(eh_frame: &[u8], pos: usize) -> (n: u32)
    requires
        pos + 4 <= eh_frame@.len(),
    ensures
        n == read_len_prefix(eh_frame@, pos as int),
{
    let b0 = eh_frame[pos] as u32;
    let b1 = eh_frame[pos + 1] as u32;
    let b2 = eh_frame[pos + 2] as u32;
    let b3 = eh_frame[pos + 3] as u32;
    b0 + 256 * b1 + 65536 * b2 + 16777216 * b3
}

/// Teardown-order law: discarding a published registry yields exactly the
/// reverse of the insertion order, element for element: the address
/// registered last is deregistered first.
pub proof fn lemma_teardown_reverses_insertion(r: UnwindRegistry)
    requires
        r.is_published(),
    ensures
        r.registrations().reverse().len() == r.registrations().len(),
        forall|j: int|
            0 <= j < r.registrations().len() ==> r.registrations().reverse()[j]
                == r.registrations()[r.registrations().len() - 1 - j],
{
}

} // verus!

//! What the runtime does on conditions it cannot recover from, and how the
//! heap grows when the allocator runs out of room.
use vstd::prelude::*;
use vstd::string::StringExecFns;
use crate::text::{decimal, render_unsigned};

verus! {

/// The size of the first region that the allocator asks the system for.
pub const MIN_HEAP_SIZE: usize = 1024 * 1024;

/// Where the runtime faults after running out of memory.
pub const ALLOC_FAULT_ADDRESS: usize = 0xDEADFA11;

/// Where the runtime faults after a panic.
pub const PANIC_FAULT_ADDRESS: usize = 0xDEADBEEF;

/// Declares `core::alloc::Layout`, which `alloc_error` receives and does not
/// read; nothing about its values is assumed.
#[verifier::external_type_specification]
#[verifier::external_body]
pub struct ExLayout(core::alloc::Layout);

/// What the runtime must do on a condition it cannot recover from: write
/// `message` to the console, then fault at `fault_address`.
pub struct FatalReport {
    pub message: String,
    pub fault_address: usize,
}

/// The report on a failed allocation, whatever its layout.
pub fn alloc_error(_layout: core::alloc::Layout) -> (r: FatalReport)
    ensures
        r.message@ == "Out of Memory"@,
        r.fault_address == ALLOC_FAULT_ADDRESS,
{
    FatalReport { message: String::from_str("Out of Memory"), fault_address: ALLOC_FAULT_ADDRESS }
}

/// The text of a panic report: the panic's message, then where it was
/// raised, where that is known.
pub open spec fn panic_text(message: Seq<char>, location: Option<(Seq<char>, u32, u32)>) -> Seq<
    char,
> {
    let head = "panic: "@ + message;
    match location {
        None => head,
        Some((file, line, column)) => head + " @ "@ + file + ":"@ + decimal(line as nat) + ":"@
            + decimal(column as nat),
    }
}

/// The report on a panic with `message`, raised in `location` (file, line
/// and column) where it is known.
pub fn panic_report(message: &str, location: Option<(&str, u32, u32)>) -> (r: FatalReport)
    ensures
        r.message@ == panic_text(
            message@,
            match location {
                Some((file, line, column)) => Some((file@, line, column)),
                None => None,
            },
        ),
        r.fault_address == PANIC_FAULT_ADDRESS,
{
    let mut text = String::from_str("panic: ");
    text.append(message);
    match location {
        None => {},
        Some((file, line, column)) => {
            text.append(" @ ");
            text.append(file);
            text.append(":");
            let line_text = render_unsigned(line as u64);
            text.append(line_text.as_str());
            text.append(":");
            let column_text = render_unsigned(column as u64);
            text.append(column_text.as_str());
        },
    }
    FatalReport { message: text, fault_address: PANIC_FAULT_ADDRESS }
}

/// The fatal-error supervisor: it holds the application's cleanup, of type
/// `F`, and hands it out for the first fatal condition only, so that a
/// failure inside the cleanup does not run it again.
pub struct FatalHook<F> {
    cleanup: Option<F>,
    fatal: bool,
}

impl<F> FatalHook<F> {
    /// The cleanup that the next fatal condition runs, if any.
    pub closed spec fn cleanup(&self) -> Option<F> {
        self.cleanup
    }

    /// Whether a fatal condition has been met already.
    pub closed spec fn is_fatal(&self) -> bool {
        self.fatal
    }

    /// A supervisor with no cleanup, before any fatal condition.
    pub fn new() -> (r: Self)
        ensures
            r.cleanup() is None,
            !r.is_fatal(),
    {
        FatalHook { cleanup: None, fatal: false }
    }

    /// Registers the cleanup, once: where one is registered already, or a
    /// fatal condition was met, it stands and `cleanup` is dropped.
    pub fn register(&mut self, cleanup: F) -> (accepted: bool)
        ensures
            accepted == (old(self).cleanup() is None && !old(self).is_fatal()),
            accepted ==> final(self).cleanup() == Some(cleanup) && !final(self).is_fatal(),
            !accepted ==> *final(self) == *old(self),
    {
        if self.cleanup.is_some() || self.fatal {
            return false;
        }
        self.cleanup = Some(cleanup);
        true
    }

    /// Meets a fatal condition: the first one hands out the cleanup to run,
    /// every later one gets `None`.
    pub fn begin_fatal(&mut self) -> (r: Option<F>)
        ensures
            old(self).is_fatal() ==> r is None,
            !old(self).is_fatal() ==> r == old(self).cleanup(),
            final(self).is_fatal(),
            final(self).cleanup() is None,
    {
        if self.fatal {
            self.cleanup = None;
            return None;
        }
        self.fatal = true;
        self.cleanup.take()
    }
}

/// The size of the region to ask the system for when an allocation of
/// `request` bytes does not fit: room for the request and one word of
/// bookkeeping, at least half again the last region, and never below
/// `MIN_HEAP_SIZE`.
pub open spec fn heap_growth(request: int, last_size: int) -> int {
    let needed = request + vstd::layout::size_of::<usize>();
    let grown = last_size + last_size / 2;
    let a = if needed >= grown { needed } else { grown };
    if a >= MIN_HEAP_SIZE as int { a } else { MIN_HEAP_SIZE as int }
}

/// The size of the next region for the allocator; `None` where that size
/// does not fit in `usize`.
pub fn next_heap_size(request: usize, last_size: usize) -> (r: Option<usize>)
    ensures
        heap_growth(request as int, last_size as int) <= usize::MAX ==> r == Some(
            heap_growth(request as int, last_size as int) as usize,
        ),
        heap_growth(request as int, last_size as int) > usize::MAX ==> r is None,
{
    let word = core::mem::size_of::<usize>();
    let needed = match request.checked_add(word) {
        Some(n) => n,
        None => {
            return None;
        },
    };
    let grown = match last_size.checked_add(last_size / 2) {
        Some(g) => g,
        None => {
            return None;
        },
    };
    let a = if needed >= grown {
        needed
    } else {
        grown
    };
    Some(
        if a >= MIN_HEAP_SIZE {
            a
        } else {
            MIN_HEAP_SIZE
        },
    )
}

} // verus!

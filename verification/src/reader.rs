//! The read exchange: the steps by which the two pages of the monitor's
//! settings table are fetched, as a state machine that a driver runs. The
//! machine says what to do next; the driver does it and reports how it went.

use vstd::prelude::*;
use crate::error::{incomplete_read_cause, Error, ErrorModel};
use crate::frame::{
    page_read, page_read_request, page_select, page_select_payload, write_request, ControlRead,
    ControlWrite, ControlWriteModel, COMMAND_DELAY_MS, PAGE0_SELECTOR, PAGE1_SELECTOR, PAGE_LEN,
};

verus! {

/// Where a read exchange stands.
#[derive(Clone, Debug, PartialEq, Eq)]
pub enum ReadState {
    /// The first page is about to be selected.
    SelectingPage0,
    /// The first page is selected and about to be fetched.
    FetchingPage0,
    /// The first page is here; the second is about to be selected.
    SelectingPage1 { page0: [u8; 36] },
    /// The second page is selected and about to be fetched.
    FetchingPage1 { page0: [u8; 36] },
    /// Both pages are here; the closing pause is due.
    Settling { page0: [u8; 36], page1: [u8; 36] },
    /// The exchange is over and both pages are here.
    Finished { page0: [u8; 36], page1: [u8; 36] },
    /// The exchange was given up. Nothing that was fetched is kept.
    Failed { error: Error },
}

/// Mathematical model of a [`ReadState`].
pub ghost enum ReadStateModel {
    SelectingPage0,
    FetchingPage0,
    SelectingPage1 { page0: Seq<u8> },
    FetchingPage1 { page0: Seq<u8> },
    Settling { page0: Seq<u8>, page1: Seq<u8> },
    Finished { page0: Seq<u8>, page1: Seq<u8> },
    Failed { error: ErrorModel },
}

impl View for ReadState {
    type V = ReadStateModel;

    open spec fn view(&self) -> ReadStateModel {
        match *self {
            ReadState::SelectingPage0 => ReadStateModel::SelectingPage0,
            ReadState::FetchingPage0 => ReadStateModel::FetchingPage0,
            ReadState::SelectingPage1 { page0 } => ReadStateModel::SelectingPage1 { page0: page0@ },
            ReadState::FetchingPage1 { page0 } => ReadStateModel::FetchingPage1 { page0: page0@ },
            ReadState::Settling { page0, page1 } => ReadStateModel::Settling {
                page0: page0@,
                page1: page1@,
            },
            ReadState::Finished { page0, page1 } => ReadStateModel::Finished {
                page0: page0@,
                page1: page1@,
            },
            ReadState::Failed { error } => ReadStateModel::Failed { error: error@ },
        }
    }
}

/// What the driver of a read exchange is asked to do.
#[derive(Clone, Debug)]
pub enum ReadAction {
    /// Perform the write and report how it went.
    Write(ControlWrite),
    /// Perform the read and report the bytes that came.
    Read(ControlRead),
    /// Pause for so many milliseconds.
    Delay { millis: u64 },
    /// The exchange is over: these are the two pages.
    Deliver { page0: [u8; 36], page1: [u8; 36] },
    /// The exchange is over: it failed.
    Abort { error: Error },
}

/// Mathematical model of a [`ReadAction`].
pub ghost enum ReadActionModel {
    Write(ControlWriteModel),
    Read(ControlRead),
    Delay { millis: u64 },
    Deliver { page0: Seq<u8>, page1: Seq<u8> },
    Abort { error: ErrorModel },
}

impl View for ReadAction {
    type V = ReadActionModel;

    open spec fn view(&self) -> ReadActionModel {
        match *self {
            ReadAction::Write(request) => ReadActionModel::Write(request@),
            ReadAction::Read(request) => ReadActionModel::Read(request),
            ReadAction::Delay { millis } => ReadActionModel::Delay { millis },
            ReadAction::Deliver { page0, page1 } => ReadActionModel::Deliver {
                page0: page0@,
                page1: page1@,
            },
            ReadAction::Abort { error } => ReadActionModel::Abort { error: error@ },
        }
    }
}

/// How an action went, as the driver reports it: the bytes that a read
/// brought (none for a write or a pause), or the transport's account of the
/// failure.
pub open spec fn outcome_model(outcome: Result<Vec<u8>, String>) -> Result<Seq<u8>, Seq<char>> {
    match outcome {
        Ok(bytes) => Ok(bytes@),
        Err(cause) => Err(cause@),
    }
}

impl ReadStateModel {
    /// The state in which every exchange starts.
    pub open spec fn start() -> ReadStateModel {
        ReadStateModel::SelectingPage0
    }

    /// Whether the exchange is over.
    pub open spec fn is_over(self) -> bool {
        self is Finished || self is Failed
    }

    /// What the driver has to do in this state.
    pub open spec fn action(self) -> ReadActionModel {
        match self {
            ReadStateModel::SelectingPage0 => ReadActionModel::Write(
                write_request(page_select_payload(0x50)),
            ),
            ReadStateModel::FetchingPage0 => ReadActionModel::Read(page_read_request()),
            ReadStateModel::SelectingPage1 { page0 } => ReadActionModel::Write(
                write_request(page_select_payload(0x51)),
            ),
            ReadStateModel::FetchingPage1 { page0 } => ReadActionModel::Read(page_read_request()),
            ReadStateModel::Settling { page0, page1 } => ReadActionModel::Delay { millis: 50 },
            ReadStateModel::Finished { page0, page1 } => ReadActionModel::Deliver { page0, page1 },
            ReadStateModel::Failed { error } => ReadActionModel::Abort { error },
        }
    }

    /// The state that follows once the action of this state went as
    /// `outcome` says. A failure ends the exchange at once, and so does a
    /// read that brings another number of bytes than a page holds. A state
    /// in which the exchange is over stays as it is.
    pub open spec fn advance(self, outcome: Result<Seq<u8>, Seq<char>>) -> ReadStateModel {
        if self.is_over() {
            self
        } else {
            match outcome {
                Err(cause) => ReadStateModel::Failed { error: ErrorModel::Transport { cause } },
                Ok(bytes) => match self {
                    ReadStateModel::SelectingPage0 => ReadStateModel::FetchingPage0,
                    ReadStateModel::FetchingPage0 => if bytes.len() == 36 {
                        ReadStateModel::SelectingPage1 { page0: bytes }
                    } else {
                        ReadStateModel::Failed {
                            error: ErrorModel::Transport { cause: incomplete_read_cause() },
                        }
                    },
                    ReadStateModel::SelectingPage1 { page0 } => ReadStateModel::FetchingPage1 {
                        page0,
                    },
                    ReadStateModel::FetchingPage1 { page0 } => if bytes.len() == 36 {
                        ReadStateModel::Settling { page0, page1: bytes }
                    } else {
                        ReadStateModel::Failed {
                            error: ErrorModel::Transport { cause: incomplete_read_cause() },
                        }
                    },
                    ReadStateModel::Settling { page0, page1 } => ReadStateModel::Finished {
                        page0,
                        page1,
                    },
                    _ => self,
                },
            }
        }
    }
}

/// An exchange in which every action succeeds and each read brings a full
/// page asks for five actions in this order: select the first page, read,
/// select the second page, read, pause. It then delivers the two pages as
/// they were read. What a write or a pause reports as bytes plays no part.
pub proof fn lemma_exchange_delivers(
    page0: Seq<u8>,
    page1: Seq<u8>,
    first: Seq<u8>,
    second: Seq<u8>,
    third: Seq<u8>,
)
    requires
        page0.len() == 36,
        page1.len() == 36,
    ensures
        ({
            let s0 = ReadStateModel::start();
            let s1 = s0.advance(Ok(first));
            let s2 = s1.advance(Ok(page0));
            let s3 = s2.advance(Ok(second));
            let s4 = s3.advance(Ok(page1));
            let s5 = s4.advance(Ok(third));
            &&& s0.action() == ReadActionModel::Write(write_request(page_select_payload(0x50)))
            &&& s1.action() == ReadActionModel::Read(page_read_request())
            &&& s2.action() == ReadActionModel::Write(write_request(page_select_payload(0x51)))
            &&& s3.action() == ReadActionModel::Read(page_read_request())
            &&& s4.action() == (ReadActionModel::Delay { millis: 50 })
            &&& s5 == (ReadStateModel::Finished { page0, page1 })
            &&& s5.action() == (ReadActionModel::Deliver { page0, page1 })
        }),
{
}

/// A failure at any step ends the exchange: the state that follows holds
/// the cause and none of the bytes fetched so far, it asks the driver to
/// give up, and no later report changes it.
pub proof fn lemma_failure_is_final(
    state: ReadStateModel,
    cause: Seq<char>,
    later: Result<Seq<u8>, Seq<char>>,
)
    requires
        !state.is_over(),
    ensures
        state.advance(Err(cause)) == (ReadStateModel::Failed {
            error: ErrorModel::Transport { cause },
        }),
        state.advance(Err(cause)).action() == (ReadActionModel::Abort {
            error: ErrorModel::Transport { cause },
        }),
        state.advance(Err(cause)).advance(later) == state.advance(Err(cause)),
{
}

/// Copies the bytes of a page that a read brought into a page buffer.
fn to_page(bytes: &Vec<u8>) -> (page: Option<[u8; 36]>)
    ensures
        match page {
            Some(copy) => bytes@.len() == 36 && copy@ == bytes@,
            None => bytes@.len() != 36,
        },
{
    if bytes.len() != PAGE_LEN {
        return None;
    }
    let mut page: [u8; 36] = [0u8; 36];
    let mut i: usize = 0;
    while i < 36
        invariant
            i <= 36,
            bytes@.len() == 36,
            forall|j: int| 0 <= j < i ==> page@[j] == bytes@[j],
        decreases 36 - i,
    {
        page[i] = bytes[i];
        i = i + 1;
    }
    assert(page@ =~= bytes@);
    Some(page)
}

impl ReadState {
    /// The state in which every exchange starts.
    pub fn start() -> (state: ReadState)
        ensures
            state@ == ReadStateModel::start(),
    {
        ReadState::SelectingPage0
    }

    /// Whether the exchange is over.
    pub fn is_over(&self) -> (over: bool)
        ensures
            over == self@.is_over(),
    {
        match self {
            ReadState::Finished { .. } => true,
            ReadState::Failed { .. } => true,
            _ => false,
        }
    }

    /// What the driver has to do in this state.
    pub fn action(&self) -> (action: ReadAction)
        ensures
            action@ == self@.action(),
    {
        match self {
            ReadState::SelectingPage0 => ReadAction::Write(page_select(PAGE0_SELECTOR)),
            ReadState::FetchingPage0 => ReadAction::Read(page_read()),
            ReadState::SelectingPage1 { .. } => ReadAction::Write(page_select(PAGE1_SELECTOR)),
            ReadState::FetchingPage1 { .. } => ReadAction::Read(page_read()),
            ReadState::Settling { .. } => ReadAction::Delay { millis: COMMAND_DELAY_MS },
            ReadState::Finished { page0, page1 } => ReadAction::Deliver {
                page0: *page0,
                page1: *page1,
            },
            ReadState::Failed { error } => ReadAction::Abort { error: copy_error(error) },
        }
    }
}

/// A second copy of an error.
fn copy_error(error: &Error) -> (copy: Error)
    ensures
        copy@ == error@,
{
    match error {
        Error::OutOfRange { feature, value, max } => Error::OutOfRange {
            feature: *feature,
            value: *value,
            max: *max,
        },
        Error::UnknownProfile => Error::UnknownProfile,
        Error::Transport { cause } => Error::Transport { cause: cause.clone() },
    }
}

/// Takes a read exchange one step further: `state` is where it stood, and
/// `outcome` says how the action of that state went. Returns the state that
/// follows.
pub fn read_values(state: ReadState, outcome: Result<Vec<u8>, String>) -> (next: ReadState)
    ensures
        next@ == state@.advance(outcome_model(outcome)),
{
    if state.is_over() {
        return state;
    }
    match outcome {
        Err(cause) => ReadState::Failed { error: Error::transport(cause) },
        Ok(bytes) => match state {
            ReadState::SelectingPage0 => ReadState::FetchingPage0,
            ReadState::FetchingPage0 => match to_page(&bytes) {
                Some(page0) => ReadState::SelectingPage1 { page0 },
                None => ReadState::Failed { error: Error::incomplete_read() },
            },
            ReadState::SelectingPage1 { page0 } => ReadState::FetchingPage1 { page0 },
            ReadState::FetchingPage1 { page0 } => match to_page(&bytes) {
                Some(page1) => ReadState::Settling { page0, page1 },
                None => ReadState::Failed { error: Error::incomplete_read() },
            },
            ReadState::Settling { page0, page1 } => ReadState::Finished { page0, page1 },
            other => other,
        },
    }
}

} // verus!

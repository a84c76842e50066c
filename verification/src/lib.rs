//! A safe interface to the curses terminal-control library.
//!
//! Raw foreign calls return sentinel integers and nullable handles; this
//! crate translates them into typed results, owned resource handles and
//! enumerated inputs, and guarantees deterministic release of every resource
//! it creates. Teardown is ordered: panels are released before the window
//! they stack, windows before the session that owns the screen.

use vstd::prelude::*;
use vstd::string::StrSliceExecFns;

mod curses;
mod error;
mod geometry;
mod input;

pub use error::CursesError;
pub use error::Error;
pub use error::non_null;
pub use error::non_zero_u32;
pub use error::result;
pub use error::string;
pub use error::to_i32;
pub use error::OK;
pub use error::ERR;
pub use geometry::Location;
pub use geometry::Size;
pub use input::Input;
pub use input::Key;
pub use input::CHAR_BACKSPACE;
pub use input::CHAR_ENTER;
pub use input::CHAR_ESC;
pub use input::CHAR_TAB;
pub use input::decode_char;
pub use input::decode_key;

verus! {

/// Converts a wait policy into the raw value that the set-input-timeout
/// primitive takes: no policy waits indefinitely, a bound in milliseconds is
/// narrowed and clamped, and a bound of zero does not wait at all.
pub fn timeout_value(timeout: Option<u32>) -> (r: i32)
    ensures
        timeout is None ==> r == -1,
        timeout matches Some(ms) ==> r == (if ms <= i32::MAX {
            ms as i32
        } else {
            i32::MAX
        }),
{
    match timeout {
        None => -1,
        Some(ms) => to_i32(ms),
    }
}

/// True exactly when the string holds an embedded NUL character, which a
/// foreign text buffer cannot represent.
fn contains_nul(s: &str) -> (r: bool)
    ensures
        r == s@.contains('\u{0}'),
{
    let len: usize = s.unicode_len();
    let mut i: usize = 0;
    while i < len
        invariant
            i <= len,
            len == s@.len(),
            forall|j: int| 0 <= j < i ==> s@[j] != '\u{0}',
        decreases len - i,
    {
        if s.get_char(i) == '\u{0}' {
            return true;
        }
        i += 1;
    }
    false
}

/// Represents a curses window: an owned handle to a rectangular drawing
/// region. The handle is never null after successful creation.
#[derive(Clone, Copy, Debug, PartialEq, Eq, Structural)]
pub struct Window(usize);

impl Window {
    /// A live window's handle is never null.
    #[verifier::type_invariant]
    spec fn live(self) -> bool {
        self.0 != 0
    }

    /// The raw handle that this window owns.
    pub closed spec fn spec_handle(self) -> usize {
        self.0
    }

    /// Creates a new curses window.
    ///
    /// For now, the size and location of the window is defined statically:
    /// ten lines by thirty columns, with its upper-left corner at the
    /// origin.
    pub fn new() -> (r: Result<Self, Error>)
        ensures
            r matches Ok(w) ==> w.spec_handle() != 0,
            r matches Err(e) ==> e == Error::Curses(CursesError::Newwin),
    {
        let raw: usize = curses::newwin(10, 30, 0, 0);
        match non_null(raw, CursesError::Newwin) {
            Ok(handle) => Ok(Self(handle)),
            Err(e) => Err(e),
        }
    }

    /// Creates a new curses window of the given size, with its upper-left
    /// corner at `origin`.
    pub fn new_at(size: Size, origin: Location) -> (r: Result<Self, Error>)
        ensures
            r matches Ok(w) ==> w.spec_handle() != 0,
            r matches Err(e) ==> e == Error::Curses(CursesError::Newwin),
    {
        let raw: usize = curses::newwin(size.lines(), size.columns(), origin.line(), origin.column());
        match non_null(raw, CursesError::Newwin) {
            Ok(handle) => Ok(Self(handle)),
            Err(e) => Err(e),
        }
    }

    /// Writes all the characters of `s` to `self`.
    ///
    /// A string holding an embedded NUL cannot be represented by the foreign
    /// call and is rejected whole, never truncated.
    pub fn add_string(self, s: String) -> (r: Result<(), Error>)
        ensures
            s@.contains('\u{0}') ==> r == Err::<(), Error>(Error::InvalidUserString),
            !s@.contains('\u{0}') ==> (r == Ok::<(), Error>(()) || r == Err::<(), Error>(
                Error::Curses(CursesError::Waddstr),
            )),
    {
        proof {
            use_type_invariant(self);
        }
        if contains_nul(s.as_str()) {
            Err(Error::InvalidUserString)
        } else {
            result(curses::waddstr(self.0, s.as_str()), CursesError::Waddstr)
        }
    }

    /// Clears `self` from the cursor to the end of the line.
    pub fn clear_to_line_end(self) -> (r: Result<(), Error>)
        ensures
            r == Ok::<(), Error>(()) || r == Err::<(), Error>(
                Error::Curses(CursesError::Wclrtoeol),
            ),
    {
        proof {
            use_type_invariant(self);
        }
        result(curses::wclrtoeol(self.0), CursesError::Wclrtoeol)
    }

    /// Returns the number of columns in `self`: a positive count, whatever
    /// raw measurement the library reports.
    pub fn columns(self) -> (r: Result<u32, Error>)
        ensures
            r matches Ok(n) ==> n >= 1,
            r matches Err(e) ==> (e == Error::InvalidNumberConversion || e == Error::InvalidZero),
    {
        proof {
            use_type_invariant(self);
        }
        non_zero_u32(curses::getmaxx(self.0))
    }

    /// Frees memory associated with `self`.
    fn delete(self) -> (r: Result<(), Error>)
        ensures
            r == Ok::<(), Error>(()) || r == Err::<(), Error>(Error::Curses(CursesError::Delwin)),
    {
        proof {
            use_type_invariant(self);
        }
        result(curses::delwin(self.0), CursesError::Delwin)
    }

    /// Deletes the character under the cursor.
    ///
    /// All characters to the right on the same line are moved to the left
    /// one position and the last character is filled with a blank. The
    /// cursor position does not change.
    pub fn delete_char(self) -> (r: Result<(), Error>)
        ensures
            r == Ok::<(), Error>(()) || r == Err::<(), Error>(Error::Curses(CursesError::Wdelch)),
    {
        proof {
            use_type_invariant(self);
        }
        result(curses::wdelch(self.0), CursesError::Wdelch)
    }

    /// Returns an [`Input`] from the terminal.
    ///
    /// [`None`] indicates no [`Input`] was found within the wait policy set
    /// by [`Self::set_block_timeout`].
    pub fn get_input(self) -> Option<Input> {
        proof {
            use_type_invariant(self);
        }
        Input::decode(curses::wgetch(self.0))
    }

    /// Moves the cursor to `location`.
    pub fn move_to(self, location: Location) -> (r: Result<(), Error>)
        ensures
            r == Ok::<(), Error>(()) || r == Err::<(), Error>(Error::Curses(CursesError::Wmove)),
    {
        proof {
            use_type_invariant(self);
        }
        result(curses::wmove(self.0, location.line(), location.column()), CursesError::Wmove)
    }

    /// Returns the number of rows in `self`: a positive count, whatever raw
    /// measurement the library reports.
    pub fn rows(self) -> (r: Result<u32, Error>)
        ensures
            r matches Ok(n) ==> n >= 1,
            r matches Err(e) ==> (e == Error::InvalidNumberConversion || e == Error::InvalidZero),
    {
        proof {
            use_type_invariant(self);
        }
        non_zero_u32(curses::getmaxy(self.0))
    }

    /// Sets how curses will block when attempting to get an [`Input`].
    ///
    /// [`None`] waits indefinitely; `Some(0)` does not wait at all; any
    /// other bound waits that many milliseconds. This is fire-and-forget:
    /// the underlying call has no failure path.
    pub fn set_block_timeout(self, timeout: Option<u32>) {
        proof {
            use_type_invariant(self);
        }
        curses::wtimeout(self.0, timeout_value(timeout));
    }
}

/// Signifies a curses panel: an owned handle to a stacking wrapper around
/// exactly one window. Releasing a panel never releases its window.
#[derive(Debug)]
pub struct Panel(usize);

impl Panel {
    /// A live panel's handle is never null.
    #[verifier::type_invariant]
    spec fn live(self) -> bool {
        self.0 != 0
    }

    /// The raw handle that this panel owns.
    pub closed spec fn spec_handle(self) -> usize {
        self.0
    }

    /// Creates a new curses panel stacked on `window`.
    pub fn new(window: Window) -> (r: Result<Self, Error>)
        ensures
            r matches Ok(p) ==> p.spec_handle() != 0,
            r matches Err(e) ==> e == Error::Curses(CursesError::NewPanel),
    {
        proof {
            use_type_invariant(window);
        }
        let raw: usize = curses::new_panel(window.0);
        match non_null(raw, CursesError::NewPanel) {
            Ok(handle) => Ok(Self(handle)),
            Err(e) => Err(e),
        }
    }

    /// Returns the [`Window`] associated with `self`.
    pub fn window(&self) -> (r: Result<Window, Error>)
        ensures
            r matches Ok(w) ==> w.spec_handle() != 0,
            r matches Err(e) ==> e == Error::Curses(CursesError::PanelWindow),
    {
        proof {
            use_type_invariant(self);
        }
        let raw: usize = curses::panel_window(self.0);
        match non_null(raw, CursesError::PanelWindow) {
            Ok(handle) => Ok(Window(handle)),
            Err(e) => Err(e),
        }
    }
}

impl Drop for Panel {
    /// Releases the panel.
    ///
    /// A release failure is an unrecoverable invariant violation — the
    /// terminal driver would be left in a state no further operation can
    /// correct — so it aborts instead of returning.
    #[verifier::external_body]
    fn drop(&mut self)
        opens_invariants none
        no_unwind
    {
        result(curses::del_panel(self.0), CursesError::DelPanel).expect("dropping `Panel`")
    }
}

/// Represents the interface to the curses library: the single entry point
/// that initializes it and owns the main screen.
#[derive(Debug)]
pub struct Curses {
    /// The default window that covers the entire physical screen.
    main_window: Window,
}

impl Curses {
    /// The window that covers the entire physical screen.
    pub closed spec fn spec_main_window(self) -> Window {
        self.main_window
    }

    /// Sounds the audible bell on the terminal, if possible, otherwise
    /// flashes the screen. Best-effort: no error path is modeled.
    pub fn beep(&self) {
        let _: i32 = curses::beep();
    }

    /// Returns a verbose description of the current terminal.
    ///
    /// The foreign text buffer is copied and validated: bytes that are not
    /// valid UTF-8 are a distinct invalid-encoding failure.
    pub fn description(&self) -> (r: Result<String, Error>)
        ensures
            r matches Err(e) ==> e == Error::InvalidCursesString,
    {
        string(curses::longname())
    }

    /// Flashes the terminal screen.
    ///
    /// The action of flashing is specified as inverting the foreground and
    /// background of every cell, pausing, and then restoring. Best-effort:
    /// no error path is modeled.
    pub fn flash(&self) {
        let _: i32 = curses::flash();
    }

    /// Returns the default window for the terminal.
    pub fn main_window(&self) -> (r: &Window)
        ensures
            *r == self.spec_main_window(),
    {
        &self.main_window
    }

    /// Returns a short description of the current terminal.
    ///
    /// The foreign text buffer is copied and validated: bytes that are not
    /// valid UTF-8 are a distinct invalid-encoding failure.
    pub fn name(&self) -> (r: Result<String, Error>)
        ensures
            r matches Err(e) ==> e == Error::InvalidCursesString,
    {
        string(curses::termname())
    }

    /// Refreshes the physical screen to match the virtual screen: first the
    /// panel stack ordering is reconciled, then the display buffer is
    /// flushed.
    pub fn refresh(&self) -> (r: Result<(), Error>)
        ensures
            r == Ok::<(), Error>(()) || r == Err::<(), Error>(
                Error::Curses(CursesError::Doupdate),
            ),
    {
        curses::update_panels();
        result(curses::doupdate(), CursesError::Doupdate)
    }

    /// Resizes the physical screen to `size`.
    ///
    /// Only resizes the screen to a non-zero value, which [`Size`]
    /// guarantees by construction. To synchronize curses to a new screen
    /// size, use [`Self::sync_screen_size`].
    pub fn resize_screen(&self, size: Size) -> (r: Result<(), Error>)
        ensures
            r == Ok::<(), Error>(()) || r == Err::<(), Error>(
                Error::Curses(CursesError::ResizeTerm),
            ),
    {
        result(curses::resize_term(size.lines(), size.columns()), CursesError::ResizeTerm)
    }

    /// Sets if typed characters are echoed: each state is its own foreign
    /// call, and a failure is tagged with the call that was made.
    pub fn set_echo(&self, is_enabled: bool) -> (r: Result<(), Error>)
        ensures
            is_enabled ==> (r == Ok::<(), Error>(()) || r == Err::<(), Error>(
                Error::Curses(CursesError::Echo),
            )),
            !is_enabled ==> (r == Ok::<(), Error>(()) || r == Err::<(), Error>(
                Error::Curses(CursesError::Noecho),
            )),
    {
        if is_enabled {
            result(curses::echo(), CursesError::Echo)
        } else {
            result(curses::noecho(), CursesError::Noecho)
        }
    }

    /// Synchronizes curses to match the current screen size, passing the
    /// "automatic" sentinel instead of explicit extents.
    pub fn sync_screen_size(&self) -> (r: Result<(), Error>)
        ensures
            r == Ok::<(), Error>(()) || r == Err::<(), Error>(
                Error::Curses(CursesError::ResizeTerm),
            ),
    {
        result(curses::resize_term(0, 0), CursesError::ResizeTerm)
    }
}

impl Default for Curses {
    /// Initializes curses and captures the main screen.
    ///
    /// Initialization must be the very first call into the library in the
    /// process, and at most one [`Curses`] may be live at a time; avoiding
    /// double initialization is the caller's responsibility.
    fn default() -> (r: Self)
        ensures
            r.spec_main_window().spec_handle() != 0,
    {
        Self { main_window: Window(curses::initscr()) }
    }
}

impl Drop for Curses {
    /// Releases the main screen, then shuts the library down.
    ///
    /// A release failure here is fatal: the terminal may be left in a
    /// corrupted control-sequence state, so continuing is unsafe.
    #[verifier::external_body]
    fn drop(&mut self)
        opens_invariants none
        no_unwind
    {
        if self.main_window.delete().is_err() {
            None::<()>.expect("cannot free memory associated with standard window");
        }
        let _: i32 = curses::endwin();
    }
}

} // verus!

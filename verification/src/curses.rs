//! The primitive call shim: one trusted function per foreign curses entry
//! point that the crate uses, each performing exactly one call.
//!
//! Window and panel handles cross this boundary as plain addresses, so that
//! nothing above it touches a foreign handle except as an opaque value; a
//! null handle is the address zero. Nothing is validated here — validation is
//! the caller's job, through the translation policies.

use vstd::prelude::*;

verus! {

/// Relies on `ncurses::beep`: sounds the audible bell, or flashes the screen
/// if the terminal has no bell.
#[verifier::external_body]
pub(crate) fn beep() -> i32 {
    ncurses::beep()
}

/// Relies on `ncurses::delwin`: frees the window behind the handle.
#[verifier::external_body]
pub(crate) fn delwin(window: usize) -> i32
    requires
        window != 0,
{
    ncurses::delwin(window as ncurses::WINDOW)
}

/// Relies on `ncurses::del_panel`: frees the panel behind the handle, leaving
/// its window untouched.
#[verifier::external_body]
pub(crate) fn del_panel(panel: usize) -> i32
    requires
        panel != 0,
{
    ncurses::del_panel(panel as ncurses::PANEL)
}

/// Relies on `ncurses::doupdate`: flushes the virtual screen to the physical
/// display.
#[verifier::external_body]
pub(crate) fn doupdate() -> i32 {
    ncurses::doupdate()
}

/// Relies on `ncurses::echo`: enables echoing of typed characters.
#[verifier::external_body]
pub(crate) fn echo() -> i32 {
    ncurses::echo()
}

/// Relies on `ncurses::endwin`: ends curses mode and restores the terminal.
#[verifier::external_body]
pub(crate) fn endwin() -> i32 {
    ncurses::endwin()
}

/// Relies on `ncurses::flash`: flashes the screen, or sounds the bell if the
/// terminal cannot flash.
#[verifier::external_body]
pub(crate) fn flash() -> i32 {
    ncurses::flash()
}

/// Relies on `ncurses::getmaxx`: returns the number of columns of the window
/// behind the handle.
#[verifier::external_body]
pub(crate) fn getmaxx(window: usize) -> i32
    requires
        window != 0,
{
    ncurses::getmaxx(window as ncurses::WINDOW)
}

/// Relies on `ncurses::getmaxy`: returns the number of lines of the window
/// behind the handle.
#[verifier::external_body]
pub(crate) fn getmaxy(window: usize) -> i32
    requires
        window != 0,
{
    ncurses::getmaxy(window as ncurses::WINDOW)
}

/// Relies on `ncurses::initscr`: initializes the library and returns the
/// main screen. On failure it writes a message to standard error and exits
/// the process, so the handle it does return is never null.
#[verifier::external_body]
pub(crate) fn initscr() -> (r: usize)
    ensures
        r != 0,
{
    ncurses::initscr() as usize
}

/// Relies on `ncurses::longname`: returns the verbose terminal description
/// as the raw bytes of a foreign text buffer, copied out promptly.
#[verifier::external_body]
pub(crate) fn longname() -> Vec<u8> {
    ncurses::longname().into_bytes()
}

/// Relies on `ncurses::newwin`: creates a window, returning its handle or
/// null on failure.
#[verifier::external_body]
pub(crate) fn newwin(lines: i32, columns: i32, y: i32, x: i32) -> usize {
    ncurses::newwin(lines, columns, y, x) as usize
}

/// Relies on `ncurses::new_panel`: stacks a panel on the window behind the
/// handle, returning the panel's handle or null on failure.
#[verifier::external_body]
pub(crate) fn new_panel(window: usize) -> usize
    requires
        window != 0,
{
    ncurses::new_panel(window as ncurses::WINDOW) as usize
}

/// Relies on `ncurses::noecho`: disables echoing of typed characters.
#[verifier::external_body]
pub(crate) fn noecho() -> i32 {
    ncurses::noecho()
}

/// Relies on `ncurses::panel_window`: returns the handle of the window that
/// the panel behind the handle stacks, or null on failure.
#[verifier::external_body]
pub(crate) fn panel_window(panel: usize) -> usize
    requires
        panel != 0,
{
    ncurses::panel_window(panel as ncurses::PANEL) as usize
}

/// Relies on `ncurses::resize_term`: resizes the screen to the given
/// extents, or resynchronizes it to the real terminal size when both are the
/// "automatic" sentinel zero.
#[verifier::external_body]
pub(crate) fn resize_term(lines: i32, columns: i32) -> i32 {
    ncurses::resize_term(lines, columns)
}

/// Relies on `ncurses::termname`: returns the short terminal name as the raw
/// bytes of a foreign text buffer, copied out promptly.
#[verifier::external_body]
pub(crate) fn termname() -> Vec<u8> {
    ncurses::termname().into_bytes()
}

/// Relies on `ncurses::update_panels`: reconciles the panel stack ordering
/// into the virtual screen.
#[verifier::external_body]
pub(crate) fn update_panels() {
    ncurses::update_panels()
}

/// Relies on `ncurses::waddstr`: writes the string at the cursor of the
/// window behind the handle. The string is re-encoded for the foreign call,
/// which cannot represent an embedded NUL, so one must not be passed in.
#[verifier::external_body]
pub(crate) fn waddstr(window: usize, s: &str) -> i32
    requires
        window != 0,
        !s@.contains('\u{0}'),
{
    ncurses::waddstr(window as ncurses::WINDOW, s)
}

/// Relies on `ncurses::wclrtoeol`: clears the window behind the handle from
/// the cursor to the end of the line.
#[verifier::external_body]
pub(crate) fn wclrtoeol(window: usize) -> i32
    requires
        window != 0,
{
    ncurses::wclrtoeol(window as ncurses::WINDOW)
}

/// Relies on `ncurses::wdelch`: deletes the character under the cursor of
/// the window behind the handle.
#[verifier::external_body]
pub(crate) fn wdelch(window: usize) -> i32
    requires
        window != 0,
{
    ncurses::wdelch(window as ncurses::WINDOW)
}

/// Relies on `ncurses::wgetch`: reads one input code from the window behind
/// the handle, returning the "no input" sentinel when none arrives within
/// the window's wait policy.
#[verifier::external_body]
pub(crate) fn wgetch(window: usize) -> i32
    requires
        window != 0,
{
    ncurses::wgetch(window as ncurses::WINDOW)
}

/// Relies on `ncurses::wmove`: moves the cursor of the window behind the
/// handle.
#[verifier::external_body]
pub(crate) fn wmove(window: usize, y: i32, x: i32) -> i32
    requires
        window != 0,
{
    ncurses::wmove(window as ncurses::WINDOW, y, x)
}

/// Relies on `ncurses::wtimeout`: sets the input wait policy of the window
/// behind the handle — negative waits indefinitely, zero does not wait, a
/// positive value waits that many milliseconds. It has no failure path.
#[verifier::external_body]
pub(crate) fn wtimeout(window: usize, delay: i32)
    requires
        window != 0,
{
    ncurses::wtimeout(window as ncurses::WINDOW, delay)
}

} // verus!

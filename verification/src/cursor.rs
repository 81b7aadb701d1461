//! Which pointer images are installed, and when they have to change.
//!
//! Installing an image is the embedding's work: it is handed in as a
//! function from a system pointer's id and an image file to success or
//! failure. What is decided here is which images are asked for, in which
//! order, and what is remembered afterwards.
use vstd::prelude::*;

verus! {

/// The id of the system's arrow pointer.
pub const OCR_NORMAL: u32 = 32512;

/// The id of the system's text beam.
pub const OCR_IBEAM: u32 = 32513;

/// The id of the system's link hand.
pub const OCR_HAND: u32 = 32649;

/// One system pointer and the image files that can stand for it.
pub struct CursorIcon {
    /// The id of the system pointer.
    pub id: u32,
    /// The image that is shown by default.
    pub origin: &'static str,
    /// The image that marks Chinese input.
    pub chinese: &'static str,
}

impl CursorIcon {
    /// The image of the wanted set.
    pub open spec fn path(self, chinese: bool) -> &'static str {
        if chinese {
            self.chinese
        } else {
            self.origin
        }
    }
}

/// The pointers that the monitor replaces: the arrow, the text beam and the
/// link hand.
pub open spec fn cursor_icons() -> Seq<CursorIcon> {
    seq![
        CursorIcon {
            id: OCR_NORMAL,
            origin: ".\\assets\\arrow_chi.cur",
            chinese: ".\\assets\\arrow_chi.cur",
        },
        CursorIcon {
            id: OCR_IBEAM,
            origin: "C:\\Windows\\Cursors\\beam_i.cur",
            chinese: ".\\assets\\ibeam_chi.cur",
        },
        CursorIcon {
            id: OCR_HAND,
            origin: "C:\\Windows\\Cursors\\aero_link.cur",
            chinese: ".\\assets\\link_chi.cur",
        },
    ]
}

/// The table of [`cursor_icons`], for the machine.
pub fn icon_table() -> (icons: [CursorIcon; 3])
    ensures
        icons@ == cursor_icons(),
{
    let icons = [
        CursorIcon {
            id: OCR_NORMAL,
            origin: ".\\assets\\arrow_chi.cur",
            chinese: ".\\assets\\arrow_chi.cur",
        },
        CursorIcon {
            id: OCR_IBEAM,
            origin: "C:\\Windows\\Cursors\\beam_i.cur",
            chinese: ".\\assets\\ibeam_chi.cur",
        },
        CursorIcon {
            id: OCR_HAND,
            origin: "C:\\Windows\\Cursors\\aero_link.cur",
            chinese: ".\\assets\\link_chi.cur",
        },
    ];
    assert(icons@ =~= cursor_icons());
    icons
}

/// Whether `r` can be the outcome of installing one set of images with
/// `install`, pointer by pointer in the order of the table, stopping at the
/// first failure: success after three successes, or the error of the
/// first installation that failed.
pub open spec fn installs<E, F: Fn(u32, &'static str) -> Result<(), E>>(
    install: F,
    chinese: bool,
    r: Result<(), E>,
) -> bool {
    let icons = cursor_icons();
    match r {
        Ok(()) => forall|i: int|
            0 <= i < icons.len() ==> call_ensures(
                install,
                (#[trigger] icons[i].id, icons[i].path(chinese)),
                Ok::<(), E>(()),
            ),
        Err(e) => exists|k: int|
            0 <= k < icons.len() && call_ensures(
                install,
                (#[trigger] icons[k].id, icons[k].path(chinese)),
                Err::<(), E>(e),
            ) && forall|i: int|
                0 <= i < k ==> call_ensures(
                    install,
                    (#[trigger] icons[i].id, icons[i].path(chinese)),
                    Ok::<(), E>(()),
                ),
    }
}

/// Whether `install` may be called on every image of the set.
pub open spec fn installable<E, F: Fn(u32, &'static str) -> Result<(), E>>(
    install: F,
    chinese: bool,
) -> bool {
    forall|i: int|
        0 <= i < cursor_icons().len() ==> call_requires(
            install,
            (#[trigger] cursor_icons()[i].id, cursor_icons()[i].path(chinese)),
        )
}

/// Installs one set of images, pointer by pointer, and stops at the first
/// failure.
fn install_all<E, F: Fn(u32, &'static str) -> Result<(), E>>(install: &F, chinese: bool) -> (r:
    Result<(), E>)
    requires
        installable(*install, chinese),
    ensures
        installs(*install, chinese, r),
{
    let icons = icon_table();
    let mut i: usize = 0;
    while i < 3
        invariant
            icons@ == cursor_icons(),
            i <= 3,
            installable(*install, chinese),
            forall|j: int|
                0 <= j < i ==> call_ensures(
                    *install,
                    (#[trigger] cursor_icons()[j].id, cursor_icons()[j].path(chinese)),
                    Ok::<(), E>(()),
                ),
        decreases 3 - i,
    {
        let path = if chinese {
            icons[i].chinese
        } else {
            icons[i].origin
        };
        match install(icons[i].id, path) {
            Ok(done) => {
                assert(done == ());
            },
            Err(e) => {
                return Err(e);
            },
        }
        i = i + 1;
    }
    Ok(())
}

/// The pointer images as the monitor last left them.
pub struct Cursor {
    is_cn: bool,
}

impl View for Cursor {
    type V = bool;

    /// Whether the Chinese images are taken to be installed.
    closed spec fn view(&self) -> bool {
        self.is_cn
    }
}

impl Cursor {
    /// Restores the default images and, if that succeeds, starts from them.
    pub fn new<E, F: Fn(u32, &'static str) -> Result<(), E>>(install: &F) -> (r: Result<Cursor, E>)
        requires
            installable(*install, false),
        ensures
            r matches Ok(cursor) ==> !cursor@ && installs(*install, false, Ok::<(), E>(())),
            r matches Err(e) ==> installs(*install, false, Err::<(), E>(e)),
    {
        match Self::reset_cursor(install) {
            Ok(()) => Ok(Cursor { is_cn: false }),
            Err(e) => Err(e),
        }
    }

    /// Whether the Chinese images are taken to be installed.
    pub fn is_cn(&self) -> (is_cn: bool)
        ensures
            is_cn == self@,
    {
        self.is_cn
    }

    /// Shows the Chinese images. Where they are taken to be installed
    /// already, nothing is installed. Otherwise they are installed, and
    /// remembered as installed only if every installation succeeded.
    pub fn set_chinesn_cursor<E, F: Fn(u32, &'static str) -> Result<(), E>>(
        &mut self,
        install: &F,
    ) -> (r: Result<(), E>)
        requires
            installable(*install, true),
        ensures
            old(self)@ ==> r is Ok && final(self)@,
            !old(self)@ ==> installs(*install, true, r) && final(self)@ == r is Ok,
    {
        if self.is_cn {
            return Ok(());
        }
        match install_all(install, true) {
            Ok(()) => {
                self.is_cn = true;
                Ok(())
            },
            Err(e) => Err(e),
        }
    }

    /// Shows the default images. Where the Chinese images are not taken to
    /// be installed, nothing is installed. Otherwise the default images are
    /// installed, and the Chinese ones forgotten only if every installation
    /// succeeded.
    pub fn set_default_cursor<E, F: Fn(u32, &'static str) -> Result<(), E>>(
        &mut self,
        install: &F,
    ) -> (r: Result<(), E>)
        requires
            installable(*install, false),
        ensures
            !old(self)@ ==> r is Ok && !final(self)@,
            old(self)@ ==> installs(*install, false, r) && final(self)@ == r is Err,
    {
        if !self.is_cn {
            return Ok(());
        }
        match Self::reset_cursor(install) {
            Ok(()) => {
                self.is_cn = false;
                Ok(())
            },
            Err(e) => Err(e),
        }
    }

    /// Installs the default images, whatever is taken to be installed.
    pub fn reset_cursor<E, F: Fn(u32, &'static str) -> Result<(), E>>(install: &F) -> (r: Result<
        (),
        E,
    >)
        requires
            installable(*install, false),
        ensures
            installs(*install, false, r),
    {
        install_all(install, false)
    }
}

} // verus!

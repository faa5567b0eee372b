//! Displays: the configuration that precedes creation, and the display's
//! hold on its backbuffer.

use vstd::prelude::*;
use crate::bitmap::{new_bitmap_ref, Bitmap};
use crate::native::{AllocationError, NativeCall};

verus! {

/// A named display option, as the native library lists them.
#[derive(Clone, Copy, Debug, PartialEq, Eq, Structural)]
pub enum DisplayOption {
    RedSize,
    GreenSize,
    BlueSize,
    AlphaSize,
    RedShift,
    GreenShift,
    BlueShift,
    AlphaShift,
    AccRedSize,
    AccGreenSize,
    AccBlueSize,
    AccAlphaSize,
    Stereo,
    AuxBuffers,
    ColorSize,
    DepthSize,
    StencilSize,
    SampleBuffers,
    Samples,
    RenderMethod,
    FloatColor,
    FloatDepth,
    SingleBuffer,
    SwapMethod,
    CompatibleDisplay,
    UpdateDisplayRegion,
    Vsync,
    MaxBitmapSize,
    SupportNpotBitmap,
    CanDrawIntoBitmap,
    SupportSeparateAlpha,
}

/// How strongly a display option is asked for.
#[derive(Clone, Copy, Debug, PartialEq, Eq, Structural)]
pub enum DisplayOptionImportance {
    DontCare,
    Require,
    Suggest,
}

/// How a display is turned.
#[derive(Clone, Copy, Debug, PartialEq, Eq, Structural)]
pub enum DisplayOrientation {
    DisplayOrientation0Degrees,
    DisplayOrientation90Degrees,
    DisplayOrientation180Degrees,
    DisplayOrientation270Degrees,
    DisplayOrientationFaceUp,
    DisplayOrientationFaceDown,
}

/// One call into the native library that configures, creates or releases a
/// display. A sequence of them is carried out in order by whoever holds the
/// native library.
#[derive(Clone, Copy, Debug, PartialEq, Eq, Structural)]
pub enum DisplayCall {
    SetNewDisplayFlags { bits: u32 },
    SetNewDisplayRefreshRate { rate: i32 },
    /// `None` asks for the native library's default adapter.
    SetNewDisplayAdapter { adapter: Option<i32> },
    SetNewWindowPosition { x: i32, y: i32 },
    ResetNewDisplayOptions,
    SetNewDisplayOption { option: DisplayOption, value: i32, importance: DisplayOptionImportance },
    CreateDisplay { w: i32, h: i32 },
    /// Release the native display, and with it its backbuffer.
    DestroyDisplay { display: usize },
}

/// A set of window and context flags, as the bits that the native library
/// gives them.
#[derive(Clone, Copy, Debug, PartialEq, Eq, Structural)]
pub struct DisplayFlags {
    bits: u32,
}

impl DisplayFlags {
    /// The bits of the set.
    pub closed spec fn bits(&self) -> u32 {
        self.bits
    }

    /// The set with no flag in it.
    pub fn empty() -> (f: DisplayFlags)
        ensures
            f.bits() == 0,
    {
        DisplayFlags { bits: 0 }
    }

    /// The set with exactly the flags whose bits are set in `bits`.
    pub fn from_bits(bits: u32) -> (f: DisplayFlags)
        ensures
            f.bits() == bits,
    {
        DisplayFlags { bits }
    }

    /// The bits of the set.
    pub fn get(&self) -> (b: u32)
        ensures
            b == self.bits(),
    {
        self.bits
    }

    /// The flags that are in either set.
    pub fn union(&self, other: DisplayFlags) -> (f: DisplayFlags)
        ensures
            f.bits() == self.bits() | other.bits(),
    {
        DisplayFlags { bits: self.bits | other.bits }
    }

    /// Whether every flag of `other` is in this set.
    pub fn contains(&self, other: DisplayFlags) -> (r: bool)
        ensures
            r == (self.bits() & other.bits() == other.bits()),
    {
        self.bits & other.bits == other.bits
    }
}

/// What a display is asked to be. An absent entry stands for the native
/// library's default.
pub struct DisplayOptions<'a> {
    pub flags: DisplayFlags,
    pub refresh_rate: Option<i32>,
    pub adapter: Option<i32>,
    pub window_position: Option<[i32; 2]>,
    pub options: Option<&'a [(DisplayOption, i32, DisplayOptionImportance)]>,
}

impl<'a> DisplayOptions<'a> {
    /// No flags, and the default everywhere else.
    pub fn new() -> (o: DisplayOptions<'a>)
        ensures
            o.flags.bits() == 0,
            o.refresh_rate is None,
            o.adapter is None,
            o.window_position is None,
            o.options is None,
    {
        DisplayOptions {
            flags: DisplayFlags::empty(),
            refresh_rate: None,
            adapter: None,
            window_position: None,
            options: None,
        }
    }

    /// The calls that set the four plain settings and then clear the named
    /// options: refresh rate 0 and the largest coordinate for both window
    /// axes stand for "no preference".
    pub open spec fn base_calls(&self) -> Seq<DisplayCall> {
        seq![
            DisplayCall::SetNewDisplayFlags { bits: self.flags.bits() },
            DisplayCall::SetNewDisplayRefreshRate {
                rate: match self.refresh_rate {
                    Some(r) => r,
                    None => 0,
                },
            },
            DisplayCall::SetNewDisplayAdapter { adapter: self.adapter },
            match self.window_position {
                Some(p) => DisplayCall::SetNewWindowPosition { x: p[0], y: p[1] },
                None => DisplayCall::SetNewWindowPosition { x: i32::MAX, y: i32::MAX },
            },
            DisplayCall::ResetNewDisplayOptions,
        ]
    }

    /// One call for each named option, in the order given.
    pub open spec fn option_calls(&self) -> Seq<DisplayCall> {
        match self.options {
            Some(list) => Seq::new(
                list@.len(),
                |i: int|
                    DisplayCall::SetNewDisplayOption {
                        option: list@[i].0,
                        value: list@[i].1,
                        importance: list@[i].2,
                    },
            ),
            None => Seq::empty(),
        }
    }

    /// Everything that creating a `w` by `h` display with these options asks
    /// of the native library: the settings, the named options, then the
    /// creation itself.
    pub open spec fn setup_calls(&self, w: i32, h: i32) -> Seq<DisplayCall> {
        self.base_calls() + self.option_calls() + seq![DisplayCall::CreateDisplay { w, h }]
    }
}

/// A native display together with a reference to its backbuffer.
#[derive(Debug)]
pub struct Display {
    allegro_display: usize,
    backbuffer: Bitmap,
}

impl Display {
    /// The native display handle.
    pub closed spec fn handle(&self) -> usize {
        self.allegro_display
    }

    /// The display's backbuffer.
    pub closed spec fn backbuffer(&self) -> Bitmap {
        self.backbuffer
    }

    /// The display handle is not null, and the backbuffer is only a
    /// reference: the native display owns it.
    #[verifier::type_invariant]
    closed spec fn inv(&self) -> bool {
        self.allegro_display != 0 && self.backbuffer.is_reference()
    }

    /// Whether `r` is what becomes of the handle `display` that the native
    /// creation call returned and of the backbuffer handle that the native
    /// library reports for it: null is the allocation failure, anything else
    /// a display that holds its backbuffer by reference.
    pub open spec fn adopts(r: Result<Display, AllocationError>, display: usize, backbuffer: usize) -> bool {
        match r {
            Ok(d) => {
                &&& display != 0
                &&& d.handle() == display
                &&& d.backbuffer().handle() == backbuffer
                &&& d.backbuffer().is_reference()
            },
            Err(_) => display == 0,
        }
    }

    /// The native calls that are due when the display goes away: the display
    /// is released, its backbuffer is not.
    pub open spec fn destroy_calls(&self) -> Seq<DisplayCall> {
        seq![DisplayCall::DestroyDisplay { display: self.handle() }]
    }

    /// Wraps what the native creation call returned. `backbuffer` is the
    /// handle of the new display's backbuffer, and is not looked at where
    /// the creation failed.
    pub fn new(display: usize, backbuffer: usize) -> (r: Result<Display, AllocationError>)
        ensures
            Display::adopts(r, display, backbuffer),
    {
        if display == 0 {
            Err(AllocationError)
        } else {
            Ok(Display { allegro_display: display, backbuffer: new_bitmap_ref(backbuffer) })
        }
    }

    /// Lists, in order, the native calls that create a `w` by `h` display
    /// with the options `opt`. What the last call returns goes to `new`.
    pub fn new_with_options(w: i32, h: i32, opt: &DisplayOptions) -> (calls: Vec<DisplayCall>)
        ensures
            calls@ == opt.setup_calls(w, h),
    {
        let mut calls: Vec<DisplayCall> = Vec::new();
        calls.push(DisplayCall::SetNewDisplayFlags { bits: opt.flags.get() });
        match opt.refresh_rate {
            Some(r) => calls.push(DisplayCall::SetNewDisplayRefreshRate { rate: r }),
            None => calls.push(DisplayCall::SetNewDisplayRefreshRate { rate: 0 }),
        }
        calls.push(DisplayCall::SetNewDisplayAdapter { adapter: opt.adapter });
        match opt.window_position {
            Some(p) => calls.push(DisplayCall::SetNewWindowPosition { x: p[0], y: p[1] }),
            None => calls.push(DisplayCall::SetNewWindowPosition { x: i32::MAX, y: i32::MAX }),
        }
        calls.push(DisplayCall::ResetNewDisplayOptions);
        assert(calls@ =~= opt.base_calls());
        match opt.options {
            Some(list) => {
                let mut i: usize = 0;
                while i < list.len()
                    invariant
                        i <= list@.len(),
                        opt.options == Some(list),
                        calls@ =~= opt.base_calls() + opt.option_calls().take(i as int),
                    decreases list@.len() - i,
                {
                    let entry = list[i];
                    calls.push(
                        DisplayCall::SetNewDisplayOption {
                            option: entry.0,
                            value: entry.1,
                            importance: entry.2,
                        },
                    );
                    i = i + 1;
                }
                assert(opt.option_calls().take(i as int) =~= opt.option_calls());
            },
            None => {
                assert(calls@ =~= opt.base_calls() + opt.option_calls());
            },
        }
        calls.push(DisplayCall::CreateDisplay { w, h });
        assert(calls@ =~= opt.setup_calls(w, h));
        calls
    }

    /// The native display handle.
    pub fn get_display(&self) -> (h: usize)
        ensures
            h == self.handle(),
            h != 0,
    {
        proof {
            use_type_invariant(self);
        }
        self.allegro_display
    }

    /// The display's backbuffer, which the display does not own.
    pub fn get_backbuffer(&self) -> (b: &Bitmap)
        ensures
            *b == self.backbuffer(),
            b.is_reference(),
    {
        proof {
            use_type_invariant(self);
        }
        &self.backbuffer
    }

    /// Ends the display: the one native call that releases it. The
    /// backbuffer goes with the native display and gets no call of its own.
    pub fn destroy(self) -> (calls: Vec<DisplayCall>)
        ensures
            calls@ == self.destroy_calls(),
    {
        let mut calls: Vec<DisplayCall> = Vec::new();
        calls.push(DisplayCall::DestroyDisplay { display: self.allegro_display });
        assert(calls@ =~= self.destroy_calls());
        calls
    }
}

/// Destroying a display never destroys its backbuffer: the display asks
/// for its own release alone, and the backbuffer, being a reference, asks for
/// no call at all, whatever the render target is.
pub proof fn lemma_display_destruction_spares_backbuffer(
    d: Display,
    display: usize,
    backbuffer: usize,
    target: usize,
    target_parent: usize,
)
    requires
        Display::adopts(Ok(d), display, backbuffer),
    ensures
        d.destroy_calls() == seq![DisplayCall::DestroyDisplay { display }],
        d.backbuffer().handle() == backbuffer,
        d.backbuffer().destroy_calls(target, target_parent) == Seq::<NativeCall>::empty(),
{
}

} // verus!

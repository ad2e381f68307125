//! The presentation session's surface configuration, chosen from what the
//! adapter reports.
use vstd::prelude::*;
use crate::input::{dispatch_key, key_command, Key, KeyCommand};

verus! {

/// How many frames may be queued ahead of the display.
pub const MAX_FRAME_LATENCY: u32 = 2;

/// wgpu's texture format, carried through as an opaque value.
#[verifier::external_type_specification]
#[verifier::external_body]
pub struct ExTextureFormat(wgpu::TextureFormat);

/// Relies on wgpu's `TextureFormat::is_srgb`, which tells whether a format
/// is sRGB-encoded. It inspects the format alone and never panics.
pub assume_specification[ wgpu::TextureFormat::is_srgb ](format: &wgpu::TextureFormat) -> bool;

/// Why a frame could not be acquired or presented. Each is recoverable:
/// the host logs it and tries again on the next redraw.
#[derive(Clone, Copy, Debug, PartialEq, Eq, Structural)]
pub enum SurfaceError {
    Timeout,
    Outdated,
    Lost,
    OutOfMemory,
    Other,
}

/// The index of the format to configure, given for each format the adapter
/// reports whether it is sRGB-encoded: the first sRGB one, else the first.
pub open spec fn preferred_format(srgb: Seq<bool>) -> int {
    if exists|i: int| 0 <= i < srgb.len() && srgb[i] {
        choose|i: int| 0 <= i < srgb.len() && srgb[i] && forall|j: int| 0 <= j < i ==> !srgb[j]
    } else {
        0
    }
}

/// The session's surface configuration. Formats, presentation modes and
/// alpha modes are indices into the lists the adapter reported.
#[derive(Clone, Copy, Debug, PartialEq, Eq, Structural)]
pub struct State {
    pub format: usize,
    pub present_mode: usize,
    pub alpha_mode: usize,
    pub width: u32,
    pub height: u32,
    pub max_frame_latency: u32,
}

impl State {
    /// Whether this configuration uses the reported capabilities as the
    /// session requires, for a window of the given size.
    pub open spec fn configured_from(
        self,
        srgb: Seq<bool>,
        present_modes: nat,
        alpha_modes: nat,
        width: u32,
        height: u32,
    ) -> bool {
        &&& self.format as int == preferred_format(srgb)
        &&& self.present_mode == 0
        &&& self.alpha_mode == 0
        &&& self.width == width
        &&& self.height == height
        &&& self.max_frame_latency == MAX_FRAME_LATENCY
        &&& (self.format as int) < srgb.len()
        &&& (self.present_mode as int) < present_modes
        &&& (self.alpha_mode as int) < alpha_modes
    }

    /// Chooses the surface configuration for a window of `width` by
    /// `height` pixels. `format_srgb` tells, for each format the adapter
    /// reports, whether it is sRGB-encoded; `present_modes` and
    /// `alpha_modes` are how many of each it reports. There is no
    /// configuration when any of the three lists is empty.
    pub fn new(
        format_srgb: &Vec<bool>,
        present_modes: usize,
        alpha_modes: usize,
        width: u32,
        height: u32,
    ) -> (r: Option<State>)
        ensures
            r is None <==> (format_srgb@.len() == 0 || present_modes == 0 || alpha_modes == 0),
            r matches Some(s) ==> s.configured_from(
                format_srgb@,
                present_modes as nat,
                alpha_modes as nat,
                width,
                height,
            ),
    {
        if format_srgb.len() == 0 || present_modes == 0 || alpha_modes == 0 {
            return None;
        }
        let mut i: usize = 0;
        while i < format_srgb.len() && !format_srgb[i]
            invariant
                0 <= i <= format_srgb@.len(),
                forall|j: int| 0 <= j < i ==> !format_srgb@[j],
            decreases format_srgb@.len() - i,
        {
            i = i + 1;
        }
        let format: usize = if i < format_srgb.len() { i } else { 0 };
        proof {
            let s = format_srgb@;
            if i < s.len() {
                let f = i as int;
                assert(0 <= f < s.len() && s[f]);
                let c = choose|k: int| 0 <= k < s.len() && s[k] && forall|j: int| 0 <= j < k ==> !s[j];
                assert(0 <= c < s.len() && s[c] && forall|j: int| 0 <= j < c ==> !s[j]);
                if c < f {
                    assert(!s[c]);
                } else if f < c {
                    assert(!s[f]);
                }
            }
        }
        Some(
            State {
                format,
                present_mode: 0,
                alpha_mode: 0,
                width,
                height,
                max_frame_latency: MAX_FRAME_LATENCY,
            },
        )
    }

    /// Chooses the surface configuration from the formats the adapter
    /// reports, asking wgpu which of them are sRGB-encoded; otherwise as
    /// `new`.
    pub fn from_formats(
        formats: &Vec<wgpu::TextureFormat>,
        present_modes: usize,
        alpha_modes: usize,
        width: u32,
        height: u32,
    ) -> (r: Option<State>)
        ensures
            r is None <==> (formats@.len() == 0 || present_modes == 0 || alpha_modes == 0),
            r matches Some(s) ==> exists|srgb: Seq<bool>|
                srgb.len() == formats@.len() && #[trigger] s.configured_from(
                    srgb,
                    present_modes as nat,
                    alpha_modes as nat,
                    width,
                    height,
                ),
    {
        let mut srgb: Vec<bool> = Vec::new();
        let mut i: usize = 0;
        while i < formats.len()
            invariant
                0 <= i <= formats@.len(),
                srgb@.len() == i,
            decreases formats@.len() - i,
        {
            srgb.push(formats[i].is_srgb());
            i = i + 1;
        }
        let r = State::new(&srgb, present_modes, alpha_modes, width, height);
        proof {
            if let Some(s) = r {
                assert(s.configured_from(srgb@, present_modes as nat, alpha_modes as nat, width, height));
            }
        }
        r
    }

    /// The command a key event produces: Escape pressed ends the loop,
    /// W, A, S and D pressed move, F pressed interacts, anything else has
    /// no effect.
    pub fn handle_key(&self, code: Key, is_pressed: bool) -> (r: KeyCommand)
        ensures
            r == key_command(code, is_pressed),
    {
        dispatch_key(code, is_pressed)
    }
}

} // verus!

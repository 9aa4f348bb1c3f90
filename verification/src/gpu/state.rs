//! GPU initialization decisions: which adapter to use, which composite
//! alpha mode to request, how the surface is configured, where the pipeline
//! cache lives, and the errors initialization and presentation report.

use vstd::prelude::*;

verus! {

/// Error returned when GPU initialization fails on all backends.
#[derive(Debug, Clone, Copy, PartialEq, Eq, Structural)]
pub struct GpuInitError;

impl GpuInitError {
    /// Human-readable description.
    pub fn message(&self) -> (s: &'static str)
        ensures
            s@ == "failed to initialize GPU with any backend"@,
    {
        "failed to initialize GPU with any backend"
    }
}

/// Error returned when presenting to a surface fails.
#[derive(Debug, Clone, Copy, PartialEq, Eq, Structural)]
pub enum SurfaceError {
    /// Surface is lost or outdated — caller should reconfigure.
    Lost,
    /// GPU is out of memory.
    OutOfMemory,
    /// Surface acquisition timed out.
    Timeout,
    /// Unspecified surface error.
    Other,
}

impl SurfaceError {
    /// Human-readable description.
    pub fn message(&self) -> (s: &'static str)
        ensures
            s@ == match *self {
                SurfaceError::Lost => "surface lost or outdated"@,
                SurfaceError::OutOfMemory => "GPU out of memory"@,
                SurfaceError::Timeout => "surface timeout"@,
                SurfaceError::Other => "surface error"@,
            },
    {
        match self {
            SurfaceError::Lost => "surface lost or outdated",
            SurfaceError::OutOfMemory => "GPU out of memory",
            SurfaceError::Timeout => "surface timeout",
            SurfaceError::Other => "surface error",
        }
    }
}

/// How the compositor blends the window surface with what is behind it.
#[derive(Debug, Clone, Copy, PartialEq, Eq, Structural)]
pub enum AlphaMode {
    Auto,
    Opaque,
    PreMultiplied,
    PostMultiplied,
    Inherit,
}

/// The alpha mode requested for a surface supporting `modes`: premultiplied
/// when offered, else postmultiplied when offered, else the first offered
/// mode, else opaque.
pub open spec fn spec_select_alpha_mode(modes: Seq<AlphaMode>) -> AlphaMode {
    if modes.contains(AlphaMode::PreMultiplied) {
        AlphaMode::PreMultiplied
    } else if modes.contains(AlphaMode::PostMultiplied) {
        AlphaMode::PostMultiplied
    } else if modes.len() > 0 {
        modes[0]
    } else {
        AlphaMode::Opaque
    }
}

/// Whether `modes` offers `m`.
fn offers(modes: &[AlphaMode], m: AlphaMode) -> (b: bool)
    ensures
        b == modes@.contains(m),
{
    let mut i: usize = 0;
    while i < modes.len()
        invariant
            i <= modes@.len(),
            forall|j: int| 0 <= j < i ==> modes@[j] != m,
        decreases modes@.len() - i,
    {
        if modes[i] == m {
            return true;
        }
        i = i + 1;
    }
    false
}

/// Select the best composite alpha mode for transparency.
///
/// Prefers non-opaque modes so the compositor can see transparent pixels
/// and show blur/acrylic through them.
pub fn select_alpha_mode(modes: &[AlphaMode]) -> (m: AlphaMode)
    ensures
        m == spec_select_alpha_mode(modes@),
{
    if offers(modes, AlphaMode::PreMultiplied) {
        AlphaMode::PreMultiplied
    } else if offers(modes, AlphaMode::PostMultiplied) {
        AlphaMode::PostMultiplied
    } else if modes.len() > 0 {
        modes[0]
    } else {
        AlphaMode::Opaque
    }
}

/// Whether a surface with this alpha mode can show what is behind the window.
pub fn supports_transparency(mode: AlphaMode) -> (b: bool)
    ensures
        b == (mode != AlphaMode::Opaque),
{
    !matches!(mode, AlphaMode::Opaque)
}

/// What adapter selection knows of one enumerated adapter.
#[derive(Debug, Clone, Copy, PartialEq, Eq, Structural)]
pub struct AdapterCandidate {
    /// The adapter can present to the window surface (always true headless).
    pub surface_supported: bool,
    /// The adapter is a discrete GPU.
    pub discrete: bool,
}

/// The first usable adapter from index `i` on; with `discrete_only`, the
/// first usable discrete one.
pub open spec fn first_usable(c: Seq<AdapterCandidate>, i: int, discrete_only: bool) -> Option<int>
    decreases c.len() - i,
{
    if i < 0 || i >= c.len() {
        None
    } else if c[i].surface_supported && (c[i].discrete || !discrete_only) {
        Some(i)
    } else {
        first_usable(c, i + 1, discrete_only)
    }
}

/// The adapter to use: the first usable discrete GPU, else the first usable
/// adapter of any kind.
pub open spec fn spec_pick_adapter(c: Seq<AdapterCandidate>) -> Option<int> {
    match first_usable(c, 0, true) {
        Some(i) => Some(i),
        None => first_usable(c, 0, false),
    }
}

/// Pick an adapter, preferring a discrete GPU among those that can present
/// to the surface, and falling back to the first one that can.
pub fn pick_adapter(candidates: &[AdapterCandidate]) -> (r: Option<usize>)
    ensures
        match r {
            Some(i) => spec_pick_adapter(candidates@) == Some(i as int),
            None => spec_pick_adapter(candidates@) is None,
        },
{
    let mut fallback: Option<usize> = None;
    let mut i: usize = 0;
    while i < candidates.len()
        invariant
            i <= candidates@.len(),
            first_usable(candidates@, 0, true) == first_usable(candidates@, i as int, true),
            match fallback {
                Some(f) => first_usable(candidates@, 0, false) == Some(f as int),
                None => first_usable(candidates@, 0, false) == first_usable(candidates@, i as int, false),
            },
        decreases candidates@.len() - i,
    {
        let a = candidates[i];
        if a.surface_supported {
            if a.discrete {
                return Some(i);
            }
            if fallback.is_none() {
                fallback = Some(i);
            }
        }
        i = i + 1;
    }
    fallback
}

/// Whether the surface is configured with the render format as a view
/// format: only when the render (sRGB) format differs from the surface's and
/// the adapter supports surface view formats.
pub fn uses_view_format(render_differs: bool, supports_view_formats: bool) -> (b: bool)
    ensures
        b == (render_differs && supports_view_formats),
{
    render_differs && supports_view_formats
}

/// Surface dimensions: each at least 1.
pub fn surface_extent(width: u32, height: u32) -> (e: (u32, u32))
    ensures
        e == (if width == 0 { 1u32 } else { width }, if height == 0 { 1u32 } else { height }),
{
    (if width == 0 { 1 } else { width }, if height == 0 { 1 } else { height })
}

/// The pipeline cache directory as path components: `ori_term` under
/// `XDG_CACHE_HOME` when it is set, else under `$HOME/.cache`, else under
/// the working directory. Pipeline caches are non-essential cached data, so
/// they go to the cache directory, not the config one.
pub fn cache_dir(xdg_cache_home: Option<String>, home: Option<String>) -> (parts: Vec<String>)
    ensures
        parts@.map_values(|p: String| p@) == match xdg_cache_home {
            Some(x) => seq![x@, "ori_term"@],
            None => match home {
                Some(h) => seq![h@, ".cache"@, "ori_term"@],
                None => seq!["."@, "ori_term"@],
            },
        },
{
    let ghost xv = xdg_cache_home;
    let ghost hv = home;
    let mut parts: Vec<String> = Vec::new();
    match xdg_cache_home {
        Some(x) => {
            parts.push(x);
        },
        None => match home {
            Some(h) => {
                parts.push(h);
                parts.push(".cache".to_owned());
            },
            None => {
                parts.push(".".to_owned());
            },
        },
    }
    parts.push("ori_term".to_owned());
    proof {
        let expected = match xv {
            Some(x) => seq![x@, "ori_term"@],
            None => match hv {
                Some(h) => seq![h@, ".cache"@, "ori_term"@],
                None => seq!["."@, "ori_term"@],
            },
        };
        assert(parts@.map_values(|p: String| p@) =~= expected);
    }
    parts
}

/// The pipeline cache directory on Windows as path components: `ori_term`
/// under `LOCALAPPDATA` when it is set, else under `APPDATA`, else under the
/// working directory.
pub fn cache_dir_windows(local_app_data: Option<String>, app_data: Option<String>) -> (parts: Vec<String>)
    ensures
        parts@.map_values(|p: String| p@) == match local_app_data {
            Some(l) => seq![l@, "ori_term"@],
            None => match app_data {
                Some(a) => seq![a@, "ori_term"@],
                None => seq!["."@, "ori_term"@],
            },
        },
{
    let ghost lv = local_app_data;
    let ghost av = app_data;
    let mut parts: Vec<String> = Vec::new();
    match local_app_data {
        Some(l) => {
            parts.push(l);
        },
        None => match app_data {
            Some(a) => {
                parts.push(a);
            },
            None => {
                parts.push(".".to_owned());
            },
        },
    }
    parts.push("ori_term".to_owned());
    proof {
        let expected = match lv {
            Some(l) => seq![l@, "ori_term"@],
            None => match av {
                Some(a) => seq![a@, "ori_term"@],
                None => seq!["."@, "ori_term"@],
            },
        };
        assert(parts@.map_values(|p: String| p@) =~= expected);
    }
    parts
}

} // verus!

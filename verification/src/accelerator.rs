//! Hardware-accelerator selection configuration.
//!
//! An [`AcceleratorConfig`] holds an ordered, de-duplicated affinity list of
//! accelerator kinds — the order in which hardware backends are tried when a
//! video decoder is constructed — plus an optional target-device string. The
//! default affinity table is injected at construction time from the running
//! [`Platform`], so the selection logic stays independent of the decode path.

use vstd::prelude::*;

verus! {

/// Platform flag bit for Windows hosts.
pub const PLATFORM_WINDOWS: u32 = 1;

/// Platform flag bit for Linux hosts.
pub const PLATFORM_LINUX: u32 = 2;

/// Platform flag bit for macOS hosts.
pub const PLATFORM_MACOS: u32 = 4;

#[derive(Debug, Copy, Clone, Eq, PartialEq, Structural)]
/// The operating system the player is running on, injected once at
/// configuration-construction time.
pub enum Platform {
    /// A Windows host.
    Windows,
    /// A Linux host.
    Linux,
    /// A macOS host.
    MacOs,
    /// Any platform without hardware decode support known to this library.
    Other,
}

impl Platform {
    /// The platform's flag bit; zero for platforms without known
    /// hardware decode support.
    pub open spec fn spec_flag(self) -> u32 {
        match self {
            Platform::Windows => PLATFORM_WINDOWS,
            Platform::Linux => PLATFORM_LINUX,
            Platform::MacOs => PLATFORM_MACOS,
            Platform::Other => 0u32,
        }
    }

    /// Returns the platform's flag bit.
    pub fn flag(&self) -> (r: u32)
        ensures
            r == self.spec_flag(),
    {
        match self {
            Platform::Windows => PLATFORM_WINDOWS,
            Platform::Linux => PLATFORM_LINUX,
            Platform::MacOs => PLATFORM_MACOS,
            Platform::Other => 0u32,
        }
    }
}

#[derive(Debug, Copy, Clone, Eq, PartialEq, Structural)]
/// A hardware accelerator that can be used for video decoding.
pub enum Accelerator {
    /// Video Acceleration API (VAAPI): a non-proprietary API initially
    /// developed by Intel, also usable with AMD hardware.
    Vaapi,
    /// Video Decode and Presentation API for Unix, developed by NVIDIA.
    Vdpau,
    /// NVIDIA's NVENC/NVDEC hardware codec engines, named after their
    /// CUDA interconnect.
    Cuda,
    /// Intel Quick Sync Video.
    Qsv,
    /// Vulkan video decoding: a vendor-generic hardware decode specification.
    Vulkan,
    /// DirectX Video Acceleration over Direct3D 9. Windows only.
    Dxva2,
    /// DirectX Video Acceleration over Direct3D 11. Windows only.
    D3D11,
    /// DirectX Video Acceleration over Direct3D 12. Windows only.
    D3D12,
    /// VideoToolbox: the macOS video decode framework. macOS only.
    VideoToolbox,
}

impl Accelerator {
    /// The set of platforms this accelerator can work on, as a flag mask.
    pub open spec fn spec_platform_flags(self) -> u32 {
        match self {
            Accelerator::Vaapi => PLATFORM_LINUX | PLATFORM_WINDOWS,
            Accelerator::Vdpau => PLATFORM_LINUX,
            Accelerator::Cuda => PLATFORM_LINUX | PLATFORM_WINDOWS,
            Accelerator::Qsv => PLATFORM_LINUX | PLATFORM_WINDOWS,
            Accelerator::Vulkan => PLATFORM_LINUX | PLATFORM_WINDOWS,
            Accelerator::Dxva2 => PLATFORM_WINDOWS,
            Accelerator::D3D11 => PLATFORM_WINDOWS,
            Accelerator::D3D12 => PLATFORM_WINDOWS,
            Accelerator::VideoToolbox => PLATFORM_MACOS,
        }
    }

    /// Returns the mask of platforms this accelerator can work on.
    pub fn platform_flags(&self) -> (r: u32)
        ensures
            r == self.spec_platform_flags(),
    {
        match self {
            Accelerator::Vaapi => PLATFORM_LINUX | PLATFORM_WINDOWS,
            Accelerator::Vdpau => PLATFORM_LINUX,
            Accelerator::Cuda => PLATFORM_LINUX | PLATFORM_WINDOWS,
            Accelerator::Qsv => PLATFORM_LINUX | PLATFORM_WINDOWS,
            Accelerator::Vulkan => PLATFORM_LINUX | PLATFORM_WINDOWS,
            Accelerator::Dxva2 => PLATFORM_WINDOWS,
            Accelerator::D3D11 => PLATFORM_WINDOWS,
            Accelerator::D3D12 => PLATFORM_WINDOWS,
            Accelerator::VideoToolbox => PLATFORM_MACOS,
        }
    }

    /// The accelerator's short name, as the native codec registry spells it.
    pub open spec fn spec_name(self) -> Seq<char> {
        match self {
            Accelerator::Vaapi => "vaapi"@,
            Accelerator::Vdpau => "vdpau"@,
            Accelerator::Cuda => "cuda"@,
            Accelerator::Qsv => "qsv"@,
            Accelerator::Vulkan => "vulkan"@,
            Accelerator::Dxva2 => "dxva2"@,
            Accelerator::D3D11 => "d3d11"@,
            Accelerator::D3D12 => "d3d12"@,
            Accelerator::VideoToolbox => "videotoolbox"@,
        }
    }

    /// Returns the accelerator's short name.
    pub fn to_name(&self) -> (r: &'static str)
        ensures
            r@ == self.spec_name(),
    {
        match self {
            Accelerator::Vaapi => "vaapi",
            Accelerator::Vdpau => "vdpau",
            Accelerator::Cuda => "cuda",
            Accelerator::Qsv => "qsv",
            Accelerator::Vulkan => "vulkan",
            Accelerator::Dxva2 => "dxva2",
            Accelerator::D3D11 => "d3d11",
            Accelerator::D3D12 => "d3d12",
            Accelerator::VideoToolbox => "videotoolbox",
        }
    }
}

/// Whether a sequence of accelerators has no repeated entry.
pub open spec fn unique_accelerators(s: Seq<Accelerator>) -> bool {
    forall|i: int, j: int| 0 <= i < j < s.len() ==> s[i] != s[j]
}

/// The input sequence with every repeated entry removed, keeping the first
/// occurrence of each accelerator in its original position.
pub open spec fn dedup_accelerators(s: Seq<Accelerator>) -> Seq<Accelerator>
    decreases s.len(),
{
    if s.len() == 0 {
        Seq::empty()
    } else {
        let prefix = dedup_accelerators(s.drop_last());
        if s.drop_last().contains(s.last()) {
            prefix
        } else {
            prefix.push(s.last())
        }
    }
}

/// De-duplication keeps exactly the members of the input.
pub proof fn lemma_dedup_same_members(s: Seq<Accelerator>, x: Accelerator)
    ensures
        dedup_accelerators(s).contains(x) == s.contains(x),
    decreases s.len(),
{
    if s.len() > 0 {
        let t = s.drop_last();
        let v = s.last();
        lemma_dedup_same_members(t, x);
        assert(s.contains(x) == (t.contains(x) || v == x)) by {
            if t.contains(x) {
                let i = choose|i: int| 0 <= i < t.len() && t[i] == x;
                assert(s[i] == x);
            }
            if v == x {
                assert(s[s.len() - 1] == x);
            }
            if s.contains(x) {
                let i = choose|i: int| 0 <= i < s.len() && s[i] == x;
                if i < s.len() - 1 {
                    assert(t[i] == x);
                }
            }
        }
        if !t.contains(v) {
            let d = dedup_accelerators(t);
            assert(d.push(v).contains(x) == (d.contains(x) || v == x)) by {
                if d.contains(x) {
                    let i = choose|i: int| 0 <= i < d.len() && d[i] == x;
                    assert(d.push(v)[i] == x);
                }
                if v == x {
                    assert(d.push(v)[d.len() as int] == x);
                }
                if d.push(v).contains(x) {
                    let i = choose|i: int| 0 <= i < d.push(v).len() && d.push(v)[i] == x;
                    if i < d.len() {
                        assert(d[i] == x);
                    }
                }
            }
        }
    }
}

/// De-duplication yields a sequence without repeated entries.
pub proof fn lemma_dedup_unique(s: Seq<Accelerator>)
    ensures
        unique_accelerators(dedup_accelerators(s)),
    decreases s.len(),
{
    if s.len() > 0 {
        lemma_dedup_unique(s.drop_last());
        if !s.drop_last().contains(s.last()) {
            lemma_dedup_same_members(s.drop_last(), s.last());
            let d = dedup_accelerators(s.drop_last());
            assert forall|i: int, j: int|
                0 <= i < j < d.push(s.last()).len() implies d.push(s.last())[i] != d.push(
                s.last(),
            )[j] by {
                if j < d.len() {
                    assert(d[i] != d[j]);
                } else {
                    assert(d.push(s.last())[j] == s.last());
                    assert(d.push(s.last())[i] == d[i]);
                    assert(!d.contains(s.last()));
                }
            }
        }
    }
}

/// Whether none of the listed accelerators can work on the given platform,
/// while the platform itself does have hardware decode support — the
/// condition under which configuring that list deserves a warning.
pub open spec fn no_platform_support(s: Seq<Accelerator>, p: Platform) -> bool {
    &&& p.spec_flag() != 0
    &&& forall|i: int|
        0 <= i < s.len() ==> #[trigger] (s[i].spec_platform_flags() & p.spec_flag()) == 0
}

/// The default affinity table for a platform, ordered by flexibility,
/// performance and availability of decoders.
pub open spec fn spec_default_affinity(p: Platform) -> Seq<Accelerator> {
    match p {
        Platform::Linux => seq![
            Accelerator::Vaapi,
            Accelerator::Vdpau,
            Accelerator::Cuda,
            Accelerator::Vulkan,
        ],
        Platform::Windows => seq![
            Accelerator::D3D12,
            Accelerator::Dxva2,
            Accelerator::Cuda,
            Accelerator::Vaapi,
        ],
        Platform::MacOs => seq![Accelerator::VideoToolbox],
        Platform::Other => Seq::empty(),
    }
}

#[derive(Debug, Clone)]
/// Controls which hardware backends are tried, and in which order, when a
/// video decoder is constructed.
pub struct AcceleratorConfig {
    /// The affinity-ordered list of accelerators to try. Entries are unique.
    pub affinity: Vec<Accelerator>,
    /// The physical device to pin accelerator creation to (for example a
    /// discrete rather than an integrated GPU), if any.
    pub target_device: Option<String>,
    /// The platform the configuration was built for.
    pub platform: Platform,
    /// Whether the most recent affinity-list update named no accelerator
    /// valid on this platform even though the platform has hardware decode
    /// support. Advisory only: such a configuration is not an error, it just
    /// means only software decoding will be available.
    pub warned_no_accelerators: bool,
}

impl AcceleratorConfig {
    /// The configuration invariant: affinity entries are unique.
    pub open spec fn wf(self) -> bool {
        unique_accelerators(self.affinity@)
    }

    /// Builds the configuration for a platform, with that platform's default
    /// affinity table and no target device.
    pub fn for_platform(platform: Platform) -> (r: Self)
        ensures
            r.wf(),
            r.affinity@ == spec_default_affinity(platform),
            r.target_device is None,
            r.platform == platform,
            !r.warned_no_accelerators,
    {
        let affinity: Vec<Accelerator> = match platform {
            Platform::Linux => vec![
                Accelerator::Vaapi,
                Accelerator::Vdpau,
                Accelerator::Cuda,
                Accelerator::Vulkan,
            ],
            Platform::Windows => vec![
                Accelerator::D3D12,
                Accelerator::Dxva2,
                Accelerator::Cuda,
                Accelerator::Vaapi,
            ],
            Platform::MacOs => vec![Accelerator::VideoToolbox],
            Platform::Other => Vec::new(),
        };
        proof {
            assert(affinity@ =~= spec_default_affinity(platform));
        }
        AcceleratorConfig {
            affinity,
            target_device: None,
            platform,
            warned_no_accelerators: false,
        }
    }

    /// Returns the enabled accelerators in affinity order.
    pub fn accelerators(&self) -> (r: &Vec<Accelerator>)
        ensures
            r@ == self.affinity@,
    {
        &self.affinity
    }

    /// Returns the pinned target device, if one was set.
    pub fn device_target(&self) -> (r: Option<&String>)
        ensures
            (match r {
                Some(d) => self.target_device matches Some(t) && d@ == t@,
                None => self.target_device is None,
            }),
    {
        self.target_device.as_ref()
    }

    /// Replaces the affinity list. The supplied order describes the affinity
    /// the player should have for each accelerator: hardware decoders are
    /// tried in exactly this order. Repeated entries are dropped, keeping
    /// the first occurrence. If the platform has hardware decode support but
    /// none of the supplied accelerators can work on it, the configuration
    /// records a warning; this is advisory, not an error.
    pub fn set_accelerators(&mut self, accelerators: &[Accelerator])
        ensures
            final(self).wf(),
            final(self).affinity@ == dedup_accelerators(accelerators@),
            final(self).warned_no_accelerators == no_platform_support(
                accelerators@,
                old(self).platform,
            ),
            final(self).target_device == old(self).target_device,
            final(self).platform == old(self).platform,
    {
        let target: u32 = self.platform.flag();

        let mut any_valid = false;
        let mut i: usize = 0;
        while i < accelerators.len()
            invariant
                0 <= i <= accelerators@.len(),
                any_valid == exists|j: int|
                    0 <= j < i && #[trigger] (accelerators@[j].spec_platform_flags()
                        & self.platform.spec_flag()) != 0,
                target == self.platform.spec_flag(),
            decreases accelerators@.len() - i,
        {
            if accelerators[i].platform_flags() & target != 0 {
                any_valid = true;
            }
            i += 1;
        }
        self.warned_no_accelerators = target != 0 && !any_valid;

        let mut deduped: Vec<Accelerator> = Vec::new();
        let mut k: usize = 0;
        while k < accelerators.len()
            invariant
                0 <= k <= accelerators@.len(),
                deduped@ == dedup_accelerators(accelerators@.take(k as int)),
            decreases accelerators@.len() - k,
        {
            let next = accelerators[k];
            let mut seen = false;
            let mut m: usize = 0;
            while m < deduped.len()
                invariant
                    0 <= m <= deduped@.len(),
                    seen == exists|j: int| 0 <= j < m && deduped@[j] == next,
                decreases deduped@.len() - m,
            {
                if deduped[m] == next {
                    seen = true;
                }
                m += 1;
            }
            proof {
                let prefix = accelerators@.take(k as int);
                assert(accelerators@.take(k as int + 1).drop_last() =~= prefix);
                assert(accelerators@.take(k as int + 1).last() == accelerators@[k as int]);
                lemma_dedup_same_members(prefix, next);
                assert(seen == prefix.contains(next));
            }
            if !seen {
                deduped.push(next);
            }
            k += 1;
        }
        proof {
            assert(accelerators@.take(accelerators@.len() as int) =~= accelerators@);
            lemma_dedup_unique(accelerators@);
        }
        self.affinity = deduped;
    }

    /// Pins the physical device that subsequent accelerator creation
    /// attempts should target, selecting for example a discrete rather
    /// than an integrated GPU.
    pub fn set_device(&mut self, device: &str)
        ensures
            final(self).target_device matches Some(d) && d@ == device@,
            final(self).affinity == old(self).affinity,
            final(self).platform == old(self).platform,
            final(self).warned_no_accelerators == old(self).warned_no_accelerators,
    {
        self.target_device = Some(device.to_owned());
    }
}

impl Default for AcceleratorConfig {
    /// The default configuration assumes a Linux host; callers on other
    /// platforms should construct through [`AcceleratorConfig::for_platform`].
    fn default() -> (r: Self)
        ensures
            r.wf(),
            r.affinity@ == spec_default_affinity(Platform::Linux),
            r.target_device is None,
            r.platform == Platform::Linux,
            !r.warned_no_accelerators,
    {
        AcceleratorConfig::for_platform(Platform::Linux)
    }
}

} // verus!

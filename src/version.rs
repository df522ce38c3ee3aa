use vstd::prelude::*;

verus! {

/// Major part of a packed API version: bits 22 to 28.
pub open spec fn major_of(packed: u32) -> u32 {
    (packed >> 22u32) & 0x7fu32
}

/// Minor part of a packed API version: bits 12 to 21.
pub open spec fn minor_of(packed: u32) -> u32 {
    (packed >> 12u32) & 0x3ffu32
}

/// Patch part of a packed API version: bits 0 to 11.
pub open spec fn patch_of(packed: u32) -> u32 {
    packed & 0xfffu32
}

/// Variant part of a packed API version: bits 29 to 31.
pub open spec fn variant_of(packed: u32) -> u32 {
    packed >> 29u32
}

/// A packed API version built from its four parts.
pub open spec fn pack(variant: u32, major: u32, minor: u32, patch: u32) -> u32 {
    (variant << 29u32) | (major << 22u32) | (minor << 12u32) | patch
}

/// Relies on ash's `vk::api_version_major`: `(version >> 22) & 0x7f`.
pub assume_specification[ ash::vk::api_version_major ](version: u32) -> (r: u32)
    ensures
        r == major_of(version),
;

/// Relies on ash's `vk::api_version_minor`: `(version >> 12) & 0x3ff`.
pub assume_specification[ ash::vk::api_version_minor ](version: u32) -> (r: u32)
    ensures
        r == minor_of(version),
;

/// Relies on ash's `vk::api_version_patch`: `version & 0xfff`.
pub assume_specification[ ash::vk::api_version_patch ](version: u32) -> (r: u32)
    ensures
        r == patch_of(version),
;

/// Relies on ash's `vk::make_api_version`: the four parts shifted into place and or-ed.
pub assume_specification[ ash::vk::make_api_version ](
    variant: u32,
    major: u32,
    minor: u32,
    patch: u32,
) -> (r: u32)
    ensures
        r == pack(variant, major, minor, patch),
;

/// An API version as three separate numbers.
#[derive(Clone, Copy, Debug, PartialEq, Eq, Structural)]
pub struct Version {
    pub major: u32,
    pub minor: u32,
    pub patch: u32,
}

impl Version {
    /// Whether each part fits in its field of a packed version.
    pub open spec fn fits(self) -> bool {
        self.major < 128 && self.minor < 1024 && self.patch < 4096
    }

    /// The version that a packed integer encodes.
    pub open spec fn spec_unpacked(packed: u32) -> Version {
        Version { major: major_of(packed), minor: minor_of(packed), patch: patch_of(packed) }
    }

    /// Splits a packed API version into major, minor and patch.
    pub fn from_packed(packed: u32) -> (r: Version)
        ensures
            r == Version::spec_unpacked(packed),
            r.fits(),
    {
        let r = Version {
            major: ash::vk::api_version_major(packed),
            minor: ash::vk::api_version_minor(packed),
            patch: ash::vk::api_version_patch(packed),
        };
        assert(r.fits()) by {
            lemma_parts_fit(packed);
        }
        r
    }

    /// Packs this version, with variant 0.
    pub fn packed(&self) -> (r: u32)
        requires
            self.fits(),
        ensures
            r == pack(0, self.major, self.minor, self.patch),
            Version::spec_unpacked(r) == *self,
    {
        proof {
            lemma_unpack_pack(0, self.major, self.minor, self.patch);
        }
        ash::vk::make_api_version(0, self.major, self.minor, self.patch)
    }

    /// The version as `[major, minor, patch]`.
    pub fn to_array(&self) -> (r: [u32; 3])
        ensures
            r@ == seq![self.major, self.minor, self.patch],
    {
        let r = [self.major, self.minor, self.patch];
        assert(r@ =~= seq![self.major, self.minor, self.patch]);
        r
    }
}

/// Each decoded part of any packed integer fits in its field.
pub proof fn lemma_parts_fit(packed: u32)
    ensures
        major_of(packed) < 128,
        minor_of(packed) < 1024,
        patch_of(packed) < 4096,
        variant_of(packed) < 8,
{
    assert((packed >> 22u32) & 0x7fu32 < 128) by (bit_vector);
    assert((packed >> 12u32) & 0x3ffu32 < 1024) by (bit_vector);
    assert(packed & 0xfffu32 < 4096) by (bit_vector);
    assert(packed >> 29u32 < 8) by (bit_vector);
}

/// Packing parts that fit their fields and then unpacking gives the same parts back.
pub proof fn lemma_unpack_pack(variant: u32, major: u32, minor: u32, patch: u32)
    requires
        variant < 8,
        major < 128,
        minor < 1024,
        patch < 4096,
    ensures
        variant_of(pack(variant, major, minor, patch)) == variant,
        major_of(pack(variant, major, minor, patch)) == major,
        minor_of(pack(variant, major, minor, patch)) == minor,
        patch_of(pack(variant, major, minor, patch)) == patch,
{
    assert(((variant << 29u32) | (major << 22u32) | (minor << 12u32) | patch) >> 29u32 == variant)
        by (bit_vector)
        requires
            variant < 8,
            major < 128,
            minor < 1024,
            patch < 4096,
    ;
    assert((((variant << 29u32) | (major << 22u32) | (minor << 12u32) | patch) >> 22u32) & 0x7fu32
        == major) by (bit_vector)
        requires
            variant < 8,
            major < 128,
            minor < 1024,
            patch < 4096,
    ;
    assert((((variant << 29u32) | (major << 22u32) | (minor << 12u32) | patch) >> 12u32)
        & 0x3ffu32 == minor) by (bit_vector)
        requires
            variant < 8,
            major < 128,
            minor < 1024,
            patch < 4096,
    ;
    assert(((variant << 29u32) | (major << 22u32) | (minor << 12u32) | patch) & 0xfffu32 == patch)
        by (bit_vector)
        requires
            variant < 8,
            major < 128,
            minor < 1024,
            patch < 4096,
    ;
}

/// Unpacking any integer and packing its four parts again gives the same integer.
pub proof fn lemma_pack_unpack(packed: u32)
    ensures
        pack(variant_of(packed), major_of(packed), minor_of(packed), patch_of(packed)) == packed,
{
    assert((((packed >> 29u32) << 29u32) | (((packed >> 22u32) & 0x7fu32) << 22u32) | (((packed
        >> 12u32) & 0x3ffu32) << 12u32) | (packed & 0xfffu32)) == packed) by (bit_vector);
}

/// What the runtime-version query reports, given the packed version the runtime
/// advertised, or `None` where it could not be determined: `[0, 0, 0]` then.
pub fn instance_version(queried: Option<u32>) -> (r: [u32; 3])
    ensures
        queried is None ==> r@ == seq![0u32, 0u32, 0u32],
        queried matches Some(v) ==> r@ == seq![major_of(v), minor_of(v), patch_of(v)],
        r@.len() == 3,
{
    match queried {
        Some(v) => Version::from_packed(v).to_array(),
        None => Version { major: 0, minor: 0, patch: 0 }.to_array(),
    }
}

/// The API version an instance is created with: 1.3.0.
pub fn requested_api_version() -> (r: u32)
    ensures
        r == pack(0, 1, 3, 0),
        Version::spec_unpacked(r) == (Version { major: 1, minor: 3, patch: 0 }),
{
    Version { major: 1, minor: 3, patch: 0 }.packed()
}

/// The application version an instance is created with: 1.0.0.
pub fn application_version() -> (r: u32)
    ensures
        r == pack(0, 1, 0, 0),
        Version::spec_unpacked(r) == (Version { major: 1, minor: 0, patch: 0 }),
{
    Version { major: 1, minor: 0, patch: 0 }.packed()
}

} // verus!

//! Camera parameters and the uniform record that a frame is rendered with.

use vstd::prelude::*;
use crate::encoding::{le_bytes, lemma_le_bytes_injective, padding, put_padding, put_u32, put_vector3, put_vector4, Vector3, Vector4};

verus! {

/// Field of view of a new camera: 90 degrees.
pub const DEFAULT_FOV: u32 = 0x42B4_0000;

/// Bounces per ray of a new camera.
pub const DEFAULT_BOUNCE_COUNT: u32 = 4;

/// Samples per pixel and frame of a new camera.
pub const DEFAULT_SAMPLE_COUNT: u32 = 1;

/// `count`, or 1 where `count` is 0: bounce and sample counts are never below 1.
pub open spec fn at_least_one(count: u32) -> u32 {
    if count < 1 {
        1
    } else {
        count
    }
}

/// What the user sets of the camera.
#[derive(Clone, Copy, Debug, PartialEq, Eq, Structural)]
pub struct Camera {
    /// Position in the four-dimensional scene.
    pub position: Vector4,
    /// Field of view in degrees, as a single-precision bit pattern.
    pub fov: u32,
    /// Colour of the sky overhead.
    pub up_sky_color: Vector3,
    /// Colour of the sky underfoot.
    pub down_sky_color: Vector3,
    /// Bounces per ray, at least 1.
    pub bounce_count: u32,
    /// Samples per pixel and frame, at least 1.
    pub sample_count: u32,
}

/// One camera field with the value an edit gives it.
#[derive(Clone, Copy, Debug, PartialEq, Eq, Structural)]
pub enum CameraField {
    Position(Vector4),
    Fov(u32),
    UpSkyColor(Vector3),
    DownSkyColor(Vector3),
    BounceCount(u32),
    SampleCount(u32),
}

impl Camera {
    /// Bounce and sample counts are at least 1.
    pub open spec fn wf(self) -> bool {
        &&& self.bounce_count >= 1
        &&& self.sample_count >= 1
    }

    /// The camera at startup: at the origin, 90 degrees wide, under a pale blue sky
    /// (0.7, 0.7, 1) over dark grey ground light (0.2, 0.2, 0.2).
    pub open spec fn initial() -> Camera {
        Camera {
            position: Vector4 { x: 0, y: 0, z: 0, w: 0 },
            fov: DEFAULT_FOV,
            up_sky_color: Vector3 { x: 0x3F33_3333, y: 0x3F33_3333, z: 0x3F80_0000 },
            down_sky_color: Vector3 { x: 0x3E4C_CCCD, y: 0x3E4C_CCCD, z: 0x3E4C_CCCD },
            bounce_count: DEFAULT_BOUNCE_COUNT,
            sample_count: DEFAULT_SAMPLE_COUNT,
        }
    }

    /// The camera with both counts raised to 1 where they are 0.
    pub open spec fn clamped(self) -> Camera {
        Camera {
            bounce_count: at_least_one(self.bounce_count),
            sample_count: at_least_one(self.sample_count),
            ..self
        }
    }

    /// The camera after `field` is stored and the counts are clamped.
    pub open spec fn with_field(self, field: CameraField) -> Camera {
        match field {
            CameraField::Position(v) => Camera { position: v, ..self },
            CameraField::Fov(v) => Camera { fov: v, ..self },
            CameraField::UpSkyColor(v) => Camera { up_sky_color: v, ..self },
            CameraField::DownSkyColor(v) => Camera { down_sky_color: v, ..self },
            CameraField::BounceCount(v) => Camera { bounce_count: v, ..self },
            CameraField::SampleCount(v) => Camera { sample_count: v, ..self },
        }.clamped()
    }

    /// The record handed to the device for one frame.
    pub open spec fn uniform_of(self, tan_half_fov: u32, seed: u32, frame_count: u32) -> GpuCamera {
        GpuCamera {
            position: self.position,
            tan_half_fov,
            up_sky_color: self.up_sky_color,
            down_sky_color: self.down_sky_color,
            bounce_count: self.bounce_count,
            sample_count: self.sample_count,
            seed_offset: seed,
            frame_count,
        }
    }

    /// The camera at startup.
    pub fn new() -> (camera: Camera)
        ensures
            camera == Camera::initial(),
            camera.wf(),
    {
        Camera {
            position: Vector4 { x: 0, y: 0, z: 0, w: 0 },
            fov: DEFAULT_FOV,
            up_sky_color: Vector3 { x: 0x3F33_3333, y: 0x3F33_3333, z: 0x3F80_0000 },
            down_sky_color: Vector3 { x: 0x3E4C_CCCD, y: 0x3E4C_CCCD, z: 0x3E4C_CCCD },
            bounce_count: DEFAULT_BOUNCE_COUNT,
            sample_count: DEFAULT_SAMPLE_COUNT,
        }
    }

    /// Stores one edited field. A bounce or sample count of 0 is not refused: it
    /// becomes 1.
    pub fn set_field(&mut self, field: CameraField)
        ensures
            *final(self) == old(self).with_field(field),
            final(self).wf(),
    {
        match field {
            CameraField::Position(v) => {
                self.position = v;
            },
            CameraField::Fov(v) => {
                self.fov = v;
            },
            CameraField::UpSkyColor(v) => {
                self.up_sky_color = v;
            },
            CameraField::DownSkyColor(v) => {
                self.down_sky_color = v;
            },
            CameraField::BounceCount(v) => {
                self.bounce_count = v;
            },
            CameraField::SampleCount(v) => {
                self.sample_count = v;
            },
        }
        if self.bounce_count < 1 {
            self.bounce_count = 1;
        }
        if self.sample_count < 1 {
            self.sample_count = 1;
        }
    }

    /// Builds the uniform record of one frame. The tangent of half the field of view
    /// is computed by the caller from `fov`; `seed` and `frame_count` are
    /// copied as they are.
    pub fn uniform(&self, tan_half_fov: u32, seed: u32, frame_count: u32) -> (record: GpuCamera)
        ensures
            record == self.uniform_of(tan_half_fov, seed, frame_count),
    {
        GpuCamera {
            position: self.position,
            tan_half_fov,
            up_sky_color: self.up_sky_color,
            down_sky_color: self.down_sky_color,
            bounce_count: self.bounce_count,
            sample_count: self.sample_count,
            seed_offset: seed,
            frame_count,
        }
    }
}

/// The camera record as the raytracing program reads it from its uniform buffer.
#[derive(Clone, Copy, Debug, PartialEq, Eq, Structural)]
pub struct GpuCamera {
    pub position: Vector4,
    /// Tangent of half the field of view, as a single-precision bit pattern.
    pub tan_half_fov: u32,
    pub up_sky_color: Vector3,
    pub down_sky_color: Vector3,
    pub bounce_count: u32,
    pub sample_count: u32,
    /// Random number of this frame.
    pub seed_offset: u32,
    /// Frames accumulated since the picture last changed.
    pub frame_count: u32,
}

impl GpuCamera {
    /// Size of the record in bytes.
    pub const SIZE: usize = 80;

    /// Offset of `position`.
    pub const POSITION_OFFSET: usize = 0;

    /// Offset of `tan_half_fov`.
    pub const TAN_HALF_FOV_OFFSET: usize = 16;

    /// Offset of `up_sky_color`.
    pub const UP_SKY_COLOR_OFFSET: usize = 32;

    /// Offset of `down_sky_color`.
    pub const DOWN_SKY_COLOR_OFFSET: usize = 48;

    /// Offset of `bounce_count`.
    pub const BOUNCE_COUNT_OFFSET: usize = 60;

    /// Offset of `sample_count`.
    pub const SAMPLE_COUNT_OFFSET: usize = 64;

    /// Offset of `seed_offset`.
    pub const SEED_OFFSET_OFFSET: usize = 68;

    /// Offset of `frame_count`.
    pub const FRAME_COUNT_OFFSET: usize = 72;

    /// The record in the layout of the uniform buffer: every vector starts at a
    /// multiple of 16, every scalar at a multiple of 4, and the record is filled
    /// up to a multiple of 16.
    pub open spec fn bytes(self) -> Seq<u8> {
        self.position.bytes()
            + le_bytes(self.tan_half_fov)
            + padding(12)
            + self.up_sky_color.bytes()
            + padding(4)
            + self.down_sky_color.bytes()
            + le_bytes(self.bounce_count)
            + le_bytes(self.sample_count)
            + le_bytes(self.seed_offset)
            + le_bytes(self.frame_count)
            + padding(4)
    }

    /// The record has `SIZE` bytes and each field stands at its offset; what lies
    /// between the fields is zero.
    pub proof fn lemma_layout(self)
        ensures
            self.bytes().len() == GpuCamera::SIZE,
            self.bytes().subrange(0, 16) == self.position.bytes(),
            self.bytes().subrange(16, 20) == le_bytes(self.tan_half_fov),
            self.bytes().subrange(20, 32) == padding(12),
            self.bytes().subrange(32, 44) == self.up_sky_color.bytes(),
            self.bytes().subrange(44, 48) == padding(4),
            self.bytes().subrange(48, 60) == self.down_sky_color.bytes(),
            self.bytes().subrange(60, 64) == le_bytes(self.bounce_count),
            self.bytes().subrange(64, 68) == le_bytes(self.sample_count),
            self.bytes().subrange(68, 72) == le_bytes(self.seed_offset),
            self.bytes().subrange(72, 76) == le_bytes(self.frame_count),
            self.bytes().subrange(76, 80) == padding(4),
    {
    }

    /// The bytes depend on the frame counter in the counter's own four bytes only:
    /// two records that agree in every other field have the same bytes everywhere
    /// else, and the same bytes there exactly if the counters agree too.
    pub proof fn lemma_counter_changes_its_field_only(self, frame_count: u32)
        ensures
            self.bytes().len() == (GpuCamera { frame_count, ..self }).bytes().len(),
            forall|i: int|
                0 <= i < GpuCamera::SIZE && !(GpuCamera::FRAME_COUNT_OFFSET <= i
                    < GpuCamera::FRAME_COUNT_OFFSET + 4) ==> self.bytes()[i] == (GpuCamera {
                    frame_count,
                    ..self
                }).bytes()[i],
            self.bytes() == (GpuCamera { frame_count, ..self }).bytes() <==> self.frame_count
                == frame_count,
    {
        let other = GpuCamera { frame_count, ..self };
        self.lemma_layout();
        other.lemma_layout();
        if self.bytes() == other.bytes() {
            lemma_le_bytes_injective(self.frame_count, frame_count);
        }
    }

    /// Writes the record out.
    pub fn serialize(&self) -> (out: Vec<u8>)
        ensures
            out@ == self.bytes(),
            out@.len() == GpuCamera::SIZE,
    {
        let mut out: Vec<u8> = Vec::with_capacity(GpuCamera::SIZE);
        put_vector4(&mut out, self.position);
        put_u32(&mut out, self.tan_half_fov);
        put_padding(&mut out, 12);
        put_vector3(&mut out, self.up_sky_color);
        put_padding(&mut out, 4);
        put_vector3(&mut out, self.down_sky_color);
        put_u32(&mut out, self.bounce_count);
        put_u32(&mut out, self.sample_count);
        put_u32(&mut out, self.seed_offset);
        put_u32(&mut out, self.frame_count);
        put_padding(&mut out, 4);
        proof {
            self.lemma_layout();
        }
        out
    }
}

} // verus!

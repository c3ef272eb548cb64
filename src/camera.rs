//! The animation's configuration and the camera path: for each frame a pitch
//! and a yaw interpolated linearly between a start and an end angle.
//!
//! Angles are whole milliradians. A frame's angle is in general not whole, so
//! an orientation holds it exactly as a fraction: the angle in milliradians is
//! `numerator / denom`, with `denom` the number of frames.

use vstd::prelude::*;

verus! {

/// The static configuration of a run, shared by all three channels.
#[derive(Clone, Copy, Debug, PartialEq, Eq, Structural)]
pub struct AnimationSpec {
    pub duration_seconds: u16,
    pub frames_per_second: u16,
    pub pitch_start_mrad: i32,
    pub pitch_end_mrad: i32,
    pub yaw_start_mrad: i32,
    pub yaw_end_mrad: i32,
    /// Projection scale in thousandths.
    pub scale_milli: u32,
    pub canvas_width: u32,
    pub canvas_height: u32,
    /// Radius of a plotted point in tenths of a pixel.
    pub point_radius_tenths: u32,
}

/// The camera for one frame. Pitch and yaw in milliradians are
/// `pitch_numer / denom` and `yaw_numer / denom`.
#[derive(Clone, Copy, Debug, PartialEq, Eq, Structural)]
pub struct Orientation {
    pub pitch_numer: i128,
    pub yaw_numer: i128,
    pub denom: u32,
    pub scale_milli: u32,
}

/// Why no orientation can be given for a frame.
#[derive(Clone, Copy, Debug, PartialEq, Eq, Structural)]
pub enum CameraError {
    /// The animation has no frames, so there is no step between them.
    NoFrames,
    /// The frame index is not below the number of frames.
    FrameOutOfRange,
}

pub open spec fn frame_total(s: AnimationSpec) -> nat {
    (s.duration_seconds * s.frames_per_second) as nat
}

/// `n` times the angle of frame `i` of `n` on a linear path from `start` to
/// `end`: `start + (end - start) / n * i`, scaled by `n` so it stays whole.
pub open spec fn interpolated(start: int, end: int, n: nat, i: int) -> int {
    start * n + (end - start) * i
}

pub open spec fn orientation_at(s: AnimationSpec, i: int) -> Orientation {
    let n = frame_total(s);
    Orientation {
        pitch_numer: interpolated(s.pitch_start_mrad as int, s.pitch_end_mrad as int, n, i) as i128,
        yaw_numer: interpolated(s.yaw_start_mrad as int, s.yaw_end_mrad as int, n, i) as i128,
        denom: n as u32,
        scale_milli: s.scale_milli,
    }
}

/// The orientations of all frames, in frame order.
pub open spec fn camera_path_of(s: AnimationSpec) -> Seq<Orientation> {
    Seq::new(frame_total(s), |i: int| orientation_at(s, i))
}

/// The interpolated numerator stays within an `i128` for every frame.
proof fn lemma_interpolated_bounds(start: int, end: int, n: nat, i: int)
    requires
        i32::MIN <= start <= i32::MAX,
        i32::MIN <= end <= i32::MAX,
        n <= u32::MAX,
        0 <= i <= n,
    ensures
        -0x1_0000_0000_0000_0000 <= start * n <= 0x1_0000_0000_0000_0000,
        -0x1_0000_0000_0000_0000 <= (end - start) * i <= 0x1_0000_0000_0000_0000,
        -0x2_0000_0000_0000_0000 <= interpolated(start, end, n, i) <= 0x2_0000_0000_0000_0000,
{
    assert(-0x8000_0000 * 0x1_0000_0000 <= start * n <= 0x8000_0000 * 0x1_0000_0000)
        by (nonlinear_arith)
        requires
            -0x8000_0000 <= start < 0x8000_0000,
            0 <= n <= 0xffff_ffff,
    ;
    assert(-0x1_0000_0000 * 0x1_0000_0000 <= (end - start) * i <= 0x1_0000_0000 * 0x1_0000_0000)
        by (nonlinear_arith)
        requires
            -0x1_0000_0000 <= end - start <= 0x1_0000_0000,
            0 <= i <= 0xffff_ffff,
    ;
}

impl AnimationSpec {
    /// Six seconds at thirty frames per second, pitch from 0 to 0.7 rad, yaw
    /// from 0.2 to 5 rad, scale 0.8, on a 1280x720 canvas with points of
    /// radius 0.7.
    pub fn standard() -> (s: AnimationSpec)
        ensures
            s == (AnimationSpec {
                duration_seconds: 6,
                frames_per_second: 30,
                pitch_start_mrad: 0,
                pitch_end_mrad: 700,
                yaw_start_mrad: 200,
                yaw_end_mrad: 5000,
                scale_milli: 800,
                canvas_width: 1280,
                canvas_height: 720,
                point_radius_tenths: 7,
            }),
    {
        AnimationSpec {
            duration_seconds: 6,
            frames_per_second: 30,
            pitch_start_mrad: 0,
            pitch_end_mrad: 700,
            yaw_start_mrad: 200,
            yaw_end_mrad: 5000,
            scale_milli: 800,
            canvas_width: 1280,
            canvas_height: 720,
            point_radius_tenths: 7,
        }
    }

    /// The number of frames: duration times frame rate.
    pub fn frame_count(&self) -> (n: u32)
        ensures
            n == frame_total(*self),
    {
        proof {
            assert(self.duration_seconds * self.frames_per_second <= 0xffff * 0xffff)
                by (nonlinear_arith);
        }
        self.duration_seconds as u32 * self.frames_per_second as u32
    }

    /// The delay between frames in whole milliseconds, rounded down; `None`
    /// when the frame rate is zero.
    pub fn frame_delay_ms(&self) -> (d: Option<u32>)
        ensures
            self.frames_per_second == 0 <==> d.is_none(),
            d matches Some(ms) ==> ms == 1000int / (self.frames_per_second as int),
    {
        if self.frames_per_second == 0 {
            None
        } else {
            Some(1000 / self.frames_per_second as u32)
        }
    }

    /// The camera for frame `frame_index`. An animation without frames is
    /// refused rather than divided by zero.
    pub fn orientation(&self, frame_index: u32) -> (res: Result<Orientation, CameraError>)
        ensures
            frame_total(*self) == 0 <==> res == Err::<Orientation, CameraError>(CameraError::NoFrames),
            (frame_total(*self) > 0 && frame_index >= frame_total(*self)) <==> res == Err::<
                Orientation,
                CameraError,
            >(CameraError::FrameOutOfRange),
            frame_index < frame_total(*self) <==> res == Ok::<Orientation, CameraError>(
                orientation_at(*self, frame_index as int),
            ),
    {
        let n = self.frame_count();
        if n == 0 {
            return Err(CameraError::NoFrames);
        }
        if frame_index >= n {
            return Err(CameraError::FrameOutOfRange);
        }
        proof {
            lemma_interpolated_bounds(
                self.pitch_start_mrad as int,
                self.pitch_end_mrad as int,
                n as nat,
                frame_index as int,
            );
            lemma_interpolated_bounds(
                self.yaw_start_mrad as int,
                self.yaw_end_mrad as int,
                n as nat,
                frame_index as int,
            );
        }
        let pitch_numer = self.pitch_start_mrad as i128 * n as i128 + (self.pitch_end_mrad as i128
            - self.pitch_start_mrad as i128) * frame_index as i128;
        let yaw_numer = self.yaw_start_mrad as i128 * n as i128 + (self.yaw_end_mrad as i128
            - self.yaw_start_mrad as i128) * frame_index as i128;
        Ok(Orientation { pitch_numer, yaw_numer, denom: n, scale_milli: self.scale_milli })
    }

    /// The cameras of all frames in frame order; an animation without frames
    /// is refused.
    pub fn camera_path(&self) -> (res: Result<Vec<Orientation>, CameraError>)
        ensures
            frame_total(*self) == 0 <==> res == Err::<Vec<Orientation>, CameraError>(
                CameraError::NoFrames,
            ),
            frame_total(*self) > 0 ==> res.is_ok(),
            res matches Ok(path) ==> path@ == camera_path_of(*self),
    {
        let n = self.frame_count();
        if n == 0 {
            return Err(CameraError::NoFrames);
        }
        let mut path: Vec<Orientation> = Vec::new();
        let mut i: u32 = 0;
        while i < n
            invariant
                n == frame_total(*self),
                i <= n,
                path@ =~= camera_path_of(*self).take(i as int),
            decreases n - i,
        {
            let o = self.orientation(i);
            match o {
                Ok(o) => {
                    path.push(o);
                },
                Err(_) => {},
            }
            i = i + 1;
        }
        assert(camera_path_of(*self).take(n as int) =~= camera_path_of(*self));
        Ok(path)
    }
}

/// The camera path is linear in the frame index: the first frame is at the
/// start angle, the last is one step short of the end angle, consecutive
/// frames differ by the same step `(end - start) / frame_count`, and the angle
/// never decreases when the end is not below the start. Stated for pitch and
/// yaw, each scaled by the frame count.
pub proof fn lemma_camera_path_linear(s: AnimationSpec)
    requires
        frame_total(s) > 0,
    ensures
        ({
            let n = frame_total(s) as int;
            let path = camera_path_of(s);
            &&& path.len() == n
            &&& path[0].pitch_numer == s.pitch_start_mrad * n
            &&& path[0].yaw_numer == s.yaw_start_mrad * n
            &&& path[n - 1].pitch_numer == s.pitch_end_mrad * n - (s.pitch_end_mrad
                - s.pitch_start_mrad)
            &&& path[n - 1].yaw_numer == s.yaw_end_mrad * n - (s.yaw_end_mrad - s.yaw_start_mrad)
            &&& forall|i: int|
                0 <= i < n - 1 ==> {
                    &&& #[trigger] path[i + 1].pitch_numer - path[i].pitch_numer == s.pitch_end_mrad
                        - s.pitch_start_mrad
                    &&& path[i + 1].yaw_numer - path[i].yaw_numer == s.yaw_end_mrad
                        - s.yaw_start_mrad
                    &&& path[i].denom == n
                }
            &&& s.pitch_start_mrad <= s.pitch_end_mrad ==> forall|i: int, j: int|
                0 <= i <= j < n ==> #[trigger] path[i].pitch_numer <= #[trigger] path[j].pitch_numer
            &&& s.yaw_start_mrad <= s.yaw_end_mrad ==> forall|i: int, j: int|
                0 <= i <= j < n ==> #[trigger] path[i].yaw_numer <= #[trigger] path[j].yaw_numer
        }),
{
    let n = frame_total(s);
    assert(n <= u32::MAX) by (nonlinear_arith)
        requires
            n == s.duration_seconds * s.frames_per_second,
            s.duration_seconds <= 0xffff,
            s.frames_per_second <= 0xffff,
    ;
    let ps = s.pitch_start_mrad as int;
    let pe = s.pitch_end_mrad as int;
    let ys = s.yaw_start_mrad as int;
    let ye = s.yaw_end_mrad as int;
    assert forall|i: int| 0 <= i <= n implies (#[trigger] interpolated(ps, pe, n, i) as i128)
        == interpolated(ps, pe, n, i) && (#[trigger] interpolated(ys, ye, n, i) as i128)
        == interpolated(ys, ye, n, i) by {
        lemma_interpolated_bounds(ps, pe, n, i);
        lemma_interpolated_bounds(ys, ye, n, i);
    }
    assert(interpolated(ps, pe, n, n - 1) == pe * n - (pe - ps)) by (nonlinear_arith);
    assert(interpolated(ys, ye, n, n - 1) == ye * n - (ye - ys)) by (nonlinear_arith);
    assert forall|i: int| 0 <= i < n - 1 implies #[trigger] interpolated(ps, pe, n, i + 1) - interpolated(
        ps,
        pe,
        n,
        i,
    ) == pe - ps && interpolated(ys, ye, n, i + 1) - interpolated(ys, ye, n, i) == ye - ys by {
        assert((pe - ps) * (i + 1) == (pe - ps) * i + (pe - ps)) by (nonlinear_arith);
        assert((ye - ys) * (i + 1) == (ye - ys) * i + (ye - ys)) by (nonlinear_arith);
    }
    assert forall|i: int, j: int| 0 <= i <= j < n implies (ps <= pe ==> #[trigger] interpolated(ps, pe, n, i)
        <= #[trigger] interpolated(ps, pe, n, j)) && (ys <= ye ==> interpolated(ys, ye, n, i) <= interpolated(
        ys,
        ye,
        n,
        j,
    )) by {
        if ps <= pe {
            assert((pe - ps) * i <= (pe - ps) * j) by (nonlinear_arith)
                requires
                    pe - ps >= 0,
                    i <= j,
            ;
        }
        if ys <= ye {
            assert((ye - ys) * i <= (ye - ys) * j) by (nonlinear_arith)
                requires
                    ye - ys >= 0,
                    i <= j,
            ;
        }
    }
}

} // verus!

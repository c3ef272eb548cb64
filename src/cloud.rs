//! Point clouds: each pixel becomes a point `(x, height - y, value)`, where
//! `value` is the pixel's byte in one channel. The flip turns image space
//! (rows counted from the top) into plot space (rows counted from the bottom).

use vstd::prelude::*;
use vstd::arithmetic::div_mod::{lemma_fundamental_div_mod, lemma_fundamental_div_mod_converse};
use crate::channel::Channel;
use crate::raster::{ImageInfo, ImageView, PixelSample, image_from_rgb, image_wf};

verus! {

/// A plotted point: position along the width, flipped position along the
/// height, and the channel value.
pub type PlotPoint = (u32, u32, u32);

pub open spec fn channel_value(s: PixelSample, c: Channel) -> u8 {
    match c {
        Channel::Red => s.r,
        Channel::Green => s.g,
        Channel::Blue => s.b,
    }
}

pub open spec fn plotted_point(s: PixelSample, height: nat, c: Channel) -> PlotPoint {
    (s.x, (height - s.y) as u32, channel_value(s, c) as u32)
}

/// The point cloud of one channel: one point per sample, in the samples' order.
pub open spec fn cloud_of(v: ImageView, c: Channel) -> Seq<PlotPoint> {
    Seq::new(v.samples.len(), |k: int| plotted_point(v.samples[k], v.height, c))
}

/// The byte of a sample in the given channel.
pub fn extract(sample: &PixelSample, channel: Channel) -> (v: u8)
    ensures
        v == channel_value(*sample, channel),
{
    match channel {
        Channel::Red => sample.r,
        Channel::Green => sample.g,
        Channel::Blue => sample.b,
    }
}

/// Builds the point cloud of one channel of an image.
pub fn channel_cloud(info: &ImageInfo, channel: Channel) -> (cloud: Vec<PlotPoint>)
    requires
        info.wf(),
    ensures
        cloud@ == cloud_of(info@, channel),
{
    let height = info.height();
    let samples = info.samples();
    let mut cloud: Vec<PlotPoint> = Vec::with_capacity(samples.len());
    let mut k: usize = 0;
    while k < samples.len()
        invariant
            image_wf(info@),
            samples@ == info@.samples,
            height == info@.height,
            k <= samples@.len(),
            cloud@ =~= cloud_of(info@, channel).take(k as int),
        decreases samples@.len() - k,
    {
        let s = &samples[k];
        proof {
            lemma_sample_in_image(info@, k as int);
        }
        cloud.push((s.x, height - s.y, extract(s, channel) as u32));
        k = k + 1;
    }
    assert(cloud_of(info@, channel).take(k as int) =~= cloud_of(info@, channel));
    cloud
}

/// The point clouds of all three channels of one image.
#[derive(Debug)]
pub struct ChannelClouds {
    pub red: Vec<PlotPoint>,
    pub green: Vec<PlotPoint>,
    pub blue: Vec<PlotPoint>,
}

impl ChannelClouds {
    pub open spec fn cloud(&self, c: Channel) -> Seq<PlotPoint> {
        match c {
            Channel::Red => self.red@,
            Channel::Green => self.green@,
            Channel::Blue => self.blue@,
        }
    }

    /// The cloud of the given channel.
    pub fn get(&self, channel: Channel) -> (cloud: &Vec<PlotPoint>)
        ensures
            cloud@ == self.cloud(channel),
    {
        match channel {
            Channel::Red => &self.red,
            Channel::Green => &self.green,
            Channel::Blue => &self.blue,
        }
    }
}

/// Builds the clouds of all three channels at once.
pub fn build_clouds(info: &ImageInfo) -> (clouds: ChannelClouds)
    requires
        info.wf(),
    ensures
        forall|c: Channel| #[trigger] clouds.cloud(c) == cloud_of(info@, c),
{
    let red = channel_cloud(info, Channel::Red);
    let green = channel_cloud(info, Channel::Green);
    let blue = channel_cloud(info, Channel::Blue);
    ChannelClouds { red, green, blue }
}

/// Each sample of an image lies inside it.
proof fn lemma_sample_in_image(v: ImageView, k: int)
    requires
        image_wf(v),
        0 <= k < v.samples.len(),
    ensures
        v.samples[k].x < v.width,
        v.samples[k].y < v.height,
{
    let w = v.width as int;
    let h = v.height as int;
    assert(w > 0) by (nonlinear_arith)
        requires
            0 <= k < w * h,
            h >= 0,
    ;
    lemma_fundamental_div_mod(k, w);
    assert(v.samples[k].x == k % w);
    assert(k / w < h) by (nonlinear_arith)
        requires
            k == w * (k / w) + k % w,
            0 <= k % w < w,
            k < w * h,
            w > 0,
    ;
}

/// Every channel's cloud of a `W x H` image has exactly `W * H` points, and
/// each point `(x, y, value)` has `x < W`, `0 < y <= H` (rows counted from the
/// bottom after the flip) and `value <= 255`.
pub proof fn lemma_cloud_shape(v: ImageView, c: Channel)
    requires
        image_wf(v),
    ensures
        cloud_of(v, c).len() == v.width * v.height,
        forall|k: int|
            0 <= k < cloud_of(v, c).len() ==> {
                let p = #[trigger] cloud_of(v, c)[k];
                &&& p.0 < v.width
                &&& 0 < p.1 <= v.height
                &&& p.2 <= 255
            },
{
    assert forall|k: int| 0 <= k < cloud_of(v, c).len() implies {
        let p = #[trigger] cloud_of(v, c)[k];
        &&& p.0 < v.width
        &&& 0 < p.1 <= v.height
        &&& p.2 <= 255
    } by {
        lemma_sample_in_image(v, k);
    }
}

/// The pixel at `(x0, y0)` of a `W x H` image becomes the point at index
/// `y0 * W + x0` of each cloud, at plot height `H - y0`; flipping that height
/// back gives `y0` again.
pub proof fn lemma_flip_round_trip(v: ImageView, c: Channel, x0: nat, y0: nat)
    requires
        image_wf(v),
        x0 < v.width,
        y0 < v.height,
    ensures
        y0 * v.width + x0 < cloud_of(v, c).len(),
        cloud_of(v, c)[(y0 * v.width + x0) as int] == (
            x0 as u32,
            (v.height - y0) as u32,
            channel_value(v.samples[(y0 * v.width + x0) as int], c) as u32,
        ),
        v.height - cloud_of(v, c)[(y0 * v.width + x0) as int].1 == y0,
{
    let w = v.width as int;
    let h = v.height as int;
    let k = y0 * w + x0;
    assert(k < w * h) by (nonlinear_arith)
        requires
            k == y0 * w + x0,
            x0 < w,
            y0 < h,
    ;
    lemma_fundamental_div_mod_converse(k, w, y0 as int, x0 as int);
    assert(v.samples[k].x == k % w);
}

/// Building is deterministic: two images made of the same pixels are the
/// same image, and so have the same point cloud in every channel.
pub proof fn lemma_runs_agree(width: nat, height: nat, rgb: Seq<u8>, a: ImageView, b: ImageView)
    requires
        image_from_rgb(a, width, height, rgb),
        image_from_rgb(b, width, height, rgb),
    ensures
        a == b,
        forall|c: Channel| #[trigger] cloud_of(a, c) == cloud_of(b, c),
{
    assert(a.samples =~= b.samples);
}

} // verus!

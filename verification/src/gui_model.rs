//! The configuration model behind the GUI.
//!
//! The model holds the user's software profiles (stored as `elite2.json`),
//! the values the GUI displays, and the snapshot of the controller's
//! hardware profiles. Edits of hardware state update the snapshot at once
//! and return the write for a background worker to perform; reading the
//! controller, the files and the input devices is left to the caller,
//! which hands the results in.

use vstd::prelude::*;
use vstd::string::StringSliceAdditionalSpecFns;

use crate::gip_types::{
    btn_name, button_name, button_named, button_of_code, default_ext, default_ext_array,
    default_face, default_face_array, GipButton,
};
use crate::pages::ext_without;
use crate::text::dec_digits;
use crate::hw_profile::{HwProfile, HwProfileCache};
use crate::types::{InputId, RemapEntry, StickCurve, TriggerZone, VibrationConfig, EV_KEY};

verus! {

/// A software profile of the GUI's configuration file.
#[derive(Debug)]
pub struct GuiProfile {
    pub name: String,
    pub remaps: Vec<RemapEntry>,
    /// LX, LY, RX, RY.
    pub stick_curves: [Option<StickCurve>; 4],
    /// Left, right.
    pub trigger_zones: [Option<TriggerZone>; 2],
    /// Left, right (0-50).
    pub stick_deadzones: [u16; 2],
    pub vibration: VibrationConfig,
}

/// The contents of a software profile.
pub struct GuiProfileView {
    pub name: Seq<char>,
    pub remaps: Seq<RemapEntry>,
    pub stick_curves: [Option<StickCurve>; 4],
    pub trigger_zones: [Option<TriggerZone>; 2],
    pub stick_deadzones: [u16; 2],
    pub vibration: VibrationConfig,
}

impl View for GuiProfile {
    type V = GuiProfileView;

    open spec fn view(&self) -> GuiProfileView {
        GuiProfileView {
            name: self.name@,
            remaps: self.remaps@,
            stick_curves: self.stick_curves,
            trigger_zones: self.trigger_zones,
            stick_deadzones: self.stick_deadzones,
            vibration: self.vibration,
        }
    }
}

/// A profile named `name` with no remaps, curves or dead zones and full
/// vibration.
pub open spec fn blank_profile(name: Seq<char>) -> GuiProfileView {
    GuiProfileView {
        name,
        remaps: Seq::empty(),
        stick_curves: [None, None, None, None],
        trigger_zones: [None, None],
        stick_deadzones: [0, 0],
        vibration: VibrationConfig {
            main_motor: 100,
            weak_motor: 100,
            left_trigger: 100,
            right_trigger: 100,
        },
    }
}

impl GuiProfile {
    /// A profile with the given name and default settings.
    pub fn named(name: String) -> (res: Self)
        ensures
            res@ == blank_profile(name@),
    {
        GuiProfile {
            name,
            remaps: Vec::new(),
            stick_curves: [None, None, None, None],
            trigger_zones: [None, None],
            stick_deadzones: [0, 0],
            vibration: VibrationConfig::default(),
        }
    }
}

/// The GUI's configuration file.
#[derive(Debug)]
pub struct GuiConfig {
    pub profiles: Vec<GuiProfile>,
    /// Software profile for each hardware profile (0-3).
    pub hw_profile_map: [usize; 4],
    pub active_override: Option<usize>,
}

/// The profile views of a configuration.
pub open spec fn profile_views(ps: Seq<GuiProfile>) -> Seq<GuiProfileView> {
    ps.map_values(|p: GuiProfile| p@)
}

impl Default for GuiConfig {
    fn default() -> (res: Self)
        ensures
            profile_views(res.profiles@) == seq![
                blank_profile("Profile 1"@),
                blank_profile("Profile 2"@),
                blank_profile("Profile 3"@),
            ],
            res.hw_profile_map@ == seq![0usize, 0, 1, 2],
            res.active_override is None,
    {
        let mut profiles: Vec<GuiProfile> = Vec::new();
        profiles.push(GuiProfile::named(String::from_str("Profile 1")));
        profiles.push(GuiProfile::named(String::from_str("Profile 2")));
        profiles.push(GuiProfile::named(String::from_str("Profile 3")));
        let map: [usize; 4] = [0, 0, 1, 2];
        proof {
            assert(profile_views(profiles@) =~= seq![
                blank_profile("Profile 1"@),
                blank_profile("Profile 2"@),
                blank_profile("Profile 3"@),
            ]);
            assert(map@ =~= seq![0usize, 0, 1, 2]);
        }
        GuiConfig { profiles, hw_profile_map: map, active_override: None }
    }
}

/// A write for the background worker.
#[derive(Debug)]
pub enum WriteOp {
    /// Store an LED color in a hardware profile and show it.
    SetColor { profile_idx: usize, r: u8, g: u8, b: u8 },
    /// Remap a button in a hardware profile's normal page.
    SetRemapNormal { profile_idx: usize, from: GipButton, to: GipButton },
    /// Remap a button in a hardware profile's shift page.
    SetRemapShift { profile_idx: usize, from: GipButton, to: GipButton },
    /// Store a stick inversion mask in a hardware profile.
    SetStickInversion { profile_idx: usize, mask: u8 },
    /// Write the device name.
    SetDeviceName { name: String },
    /// Start the motors, stopping them after `duration_ms`.
    Rumble { lm: u8, rm: u8, lt: u8, rt: u8, duration_ms: u64 },
    /// Stop the motors.
    RumbleStop,
    /// Restore a hardware profile's factory curves.
    ResetCurves { profile_idx: usize },
}

/// The JSON text that `serde_json::to_string` makes of an array of stick
/// curve points: `[`, the numbers in decimal separated by `,`, then `]`.
pub open spec fn json_of_points(points: Seq<i16>) -> Seq<char> {
    seq!['['] + json_numbers(points) + seq![']']
}

/// An integer in decimal, with `-` before a negative one.
pub open spec fn int_text(v: int) -> Seq<char> {
    if v < 0 {
        seq!['-'] + dec_digits((-v) as nat)
    } else {
        dec_digits(v as nat)
    }
}

/// Integers in decimal, separated by `,`.
pub open spec fn json_numbers(points: Seq<i16>) -> Seq<char>
    decreases points.len(),
{
    if points.len() == 0 {
        Seq::empty()
    } else if points.len() == 1 {
        int_text(points[0] as int)
    } else {
        json_numbers(points.drop_last()) + seq![','] + int_text(points.last() as int)
    }
}

/// The list of integers that `serde_json::from_str::<Vec<i16>>` reads from
/// a text, if it reads one.
pub uninterp spec fn json_i16_list(text: Seq<char>) -> Option<Seq<i16>>;

/// The JSON text that `serde_json::to_string` makes of a list of strings.
pub uninterp spec fn json_of_strings(items: Seq<Seq<char>>) -> Seq<char>;

/// Calls `serde_json::to_string` on the sixteen points of a curve: the
/// compact JSON array of the numbers.
#[verifier::external_body]
fn points_json(points: &[i16; 16]) -> (res: String)
    ensures
        res@ == json_of_points(points@),
{
    serde_json::to_string(points).unwrap_or_default()
}

/// Calls `serde_json::from_str::<Vec<i16>>`. The contract names the parsed
/// list as a function of the text; a text it rejects gives `None`.
#[verifier::external_body]
fn parse_points(text: &str) -> (res: Option<Vec<i16>>)
    ensures
        res is None <==> json_i16_list(text@) is None,
        res matches Some(v) ==> json_i16_list(text@) == Some(v@),
{
    serde_json::from_str::<Vec<i16>>(text).ok()
}

/// Calls `serde_json::to_string` on a list of strings. The contract names
/// the text as a function of the strings.
#[verifier::external_body]
fn strings_json(items: &Vec<String>) -> (res: String)
    ensures
        res@ == json_of_strings(items@.map_values(|s: String| s@)),
{
    serde_json::to_string(items).unwrap_or_default()
}

/// The text shown for a stick curve: its points as JSON, or `null`.
pub open spec fn curve_text(c: Option<StickCurve>) -> Seq<char> {
    match c {
        Some(c) => json_of_points(c.points@),
        None => "null"@,
    }
}

fn curve_string(c: &Option<StickCurve>) -> (res: String)
    ensures
        res@ == curve_text(*c),
{
    match c {
        Some(c) => points_json(&c.points),
        None => String::from_str("null"),
    }
}

/// A trigger's displayed bounds: its dead zone, or the full range.
pub open spec fn zone_bounds(z: Option<TriggerZone>) -> (i32, i32) {
    match z {
        Some(z) => (z.dead_min as i32, z.dead_max as i32),
        None => (0i32, 1023i32),
    }
}

/// The GUI's model: displayed values, the configuration being edited, and
/// the hardware profile snapshot.
#[derive(Debug)]
pub struct ProfileModel {
    pub device_name: String,
    pub hw_profile: i32,
    pub active_profile: i32,
    pub connected: bool,
    pub profile_count: i32,
    pub profile_name: String,
    pub left_trigger_min: i32,
    pub left_trigger_max: i32,
    pub right_trigger_min: i32,
    pub right_trigger_max: i32,
    pub vibration_main: i32,
    pub vibration_weak: i32,
    pub vibration_lt: i32,
    pub vibration_rt: i32,
    pub left_stick_x_curve: String,
    pub left_stick_y_curve: String,
    pub right_stick_x_curve: String,
    pub right_stick_y_curve: String,
    pub left_stick_deadzone: i32,
    pub right_stick_deadzone: i32,
    pub is_usb: bool,
    /// `#rrggbb` or `default`.
    pub profile_color: String,
    /// 0-100.
    pub profile_brightness: i32,
    pub live_buttons: i32,
    pub live_paddles: i32,
    pub live_lx: i32,
    pub live_ly: i32,
    pub live_rx: i32,
    pub live_ry: i32,
    pub live_lt: i32,
    pub live_rt: i32,
    pub config: GuiConfig,
    pub sel_idx: usize,
    /// The bound device's sysfs directory, once detected.
    pub sysfs_path: Option<String>,
    pub hw_cache: HwProfileCache,
    /// Whether `hw_cache` was read from the current device.
    pub hw_cache_loaded: bool,
}

/// The model's contents, strings by their characters.
pub struct ModelView {
    pub device_name: Seq<char>,
    pub hw_profile: i32,
    pub active_profile: i32,
    pub connected: bool,
    pub profile_count: i32,
    pub profile_name: Seq<char>,
    pub left_trigger_min: i32,
    pub left_trigger_max: i32,
    pub right_trigger_min: i32,
    pub right_trigger_max: i32,
    pub vibration_main: i32,
    pub vibration_weak: i32,
    pub vibration_lt: i32,
    pub vibration_rt: i32,
    pub left_stick_x_curve: Seq<char>,
    pub left_stick_y_curve: Seq<char>,
    pub right_stick_x_curve: Seq<char>,
    pub right_stick_y_curve: Seq<char>,
    pub left_stick_deadzone: i32,
    pub right_stick_deadzone: i32,
    pub is_usb: bool,
    pub profile_color: Seq<char>,
    pub profile_brightness: i32,
    pub live_buttons: i32,
    pub live_paddles: i32,
    pub live_lx: i32,
    pub live_ly: i32,
    pub live_rx: i32,
    pub live_ry: i32,
    pub live_lt: i32,
    pub live_rt: i32,
    pub profiles: Seq<GuiProfileView>,
    pub hw_profile_map: [usize; 4],
    pub active_override: Option<usize>,
    pub sel_idx: usize,
    pub sysfs_path: Option<Seq<char>>,
    pub hw_cache: HwProfileCache,
    pub hw_cache_loaded: bool,
}

impl View for ProfileModel {
    type V = ModelView;

    open spec fn view(&self) -> ModelView {
        ModelView {
            device_name: self.device_name@,
            hw_profile: self.hw_profile,
            active_profile: self.active_profile,
            connected: self.connected,
            profile_count: self.profile_count,
            profile_name: self.profile_name@,
            left_trigger_min: self.left_trigger_min,
            left_trigger_max: self.left_trigger_max,
            right_trigger_min: self.right_trigger_min,
            right_trigger_max: self.right_trigger_max,
            vibration_main: self.vibration_main,
            vibration_weak: self.vibration_weak,
            vibration_lt: self.vibration_lt,
            vibration_rt: self.vibration_rt,
            left_stick_x_curve: self.left_stick_x_curve@,
            left_stick_y_curve: self.left_stick_y_curve@,
            right_stick_x_curve: self.right_stick_x_curve@,
            right_stick_y_curve: self.right_stick_y_curve@,
            left_stick_deadzone: self.left_stick_deadzone,
            right_stick_deadzone: self.right_stick_deadzone,
            is_usb: self.is_usb,
            profile_color: self.profile_color@,
            profile_brightness: self.profile_brightness,
            live_buttons: self.live_buttons,
            live_paddles: self.live_paddles,
            live_lx: self.live_lx,
            live_ly: self.live_ly,
            live_rx: self.live_rx,
            live_ry: self.live_ry,
            live_lt: self.live_lt,
            live_rt: self.live_rt,
            profiles: profile_views(self.config.profiles@),
            hw_profile_map: self.config.hw_profile_map,
            active_override: self.config.active_override,
            sel_idx: self.sel_idx,
            sysfs_path: match self.sysfs_path {
                Some(p) => Some(p@),
                None => None,
            },
            hw_cache: self.hw_cache,
            hw_cache_loaded: self.hw_cache_loaded,
        }
    }
}

/// The model after showing profile `idx`, if there is one.
pub open spec fn loaded(v: ModelView, idx: int) -> ModelView {
    if 0 <= idx < v.profiles.len() {
        let p = v.profiles[idx];
        ModelView {
            profile_name: p.name,
            left_stick_x_curve: curve_text(p.stick_curves[0]),
            left_stick_y_curve: curve_text(p.stick_curves[1]),
            right_stick_x_curve: curve_text(p.stick_curves[2]),
            right_stick_y_curve: curve_text(p.stick_curves[3]),
            left_trigger_min: zone_bounds(p.trigger_zones[0]).0,
            left_trigger_max: zone_bounds(p.trigger_zones[0]).1,
            right_trigger_min: zone_bounds(p.trigger_zones[1]).0,
            right_trigger_max: zone_bounds(p.trigger_zones[1]).1,
            vibration_main: p.vibration.main_motor as i32,
            vibration_weak: p.vibration.weak_motor as i32,
            vibration_lt: p.vibration.left_trigger as i32,
            vibration_rt: p.vibration.right_trigger as i32,
            left_stick_deadzone: p.stick_deadzones[0] as i32,
            right_stick_deadzone: p.stick_deadzones[1] as i32,
            ..v
        }
    } else {
        v
    }
}

/// The model after selecting profile `index`.
pub open spec fn selected(v: ModelView, index: i32) -> ModelView {
    loaded(ModelView { active_profile: index, sel_idx: index as usize, ..v }, index as usize as int)
}

impl ProfileModel {
    /// A model with the default configuration, nothing connected.
    pub fn new() -> (res: Self)
        ensures
            res@.device_name.len() == 0,
            res@.hw_profile == 0,
            res@.active_profile == 0,
            !res@.connected,
            res@.profile_count == 3,
            res@.profile_name.len() == 0,
            res@.left_trigger_min == 0 && res@.left_trigger_max == 1023,
            res@.right_trigger_min == 0 && res@.right_trigger_max == 1023,
            res@.vibration_main == 100 && res@.vibration_weak == 100,
            res@.vibration_lt == 100 && res@.vibration_rt == 100,
            res@.left_stick_x_curve.len() == 0 && res@.left_stick_y_curve.len() == 0,
            res@.right_stick_x_curve.len() == 0 && res@.right_stick_y_curve.len() == 0,
            res@.left_stick_deadzone == 0 && res@.right_stick_deadzone == 0,
            !res@.is_usb,
            res@.profile_color == "default"@,
            res@.profile_brightness == 100,
            res@.live_buttons == 0 && res@.live_paddles == 0,
            res@.live_lx == 0 && res@.live_ly == 0 && res@.live_rx == 0 && res@.live_ry == 0,
            res@.live_lt == 0 && res@.live_rt == 0,
            res@.profiles == seq![
                blank_profile("Profile 1"@),
                blank_profile("Profile 2"@),
                blank_profile("Profile 3"@),
            ],
            res@.hw_profile_map@ == seq![0usize, 0, 1, 2],
            res@.active_override is None,
            res@.sel_idx == 0,
            res@.sysfs_path is None,
            !res@.hw_cache_loaded,
    {
        ProfileModel {
            device_name: String::new(),
            hw_profile: 0,
            active_profile: 0,
            connected: false,
            profile_count: 3,
            profile_name: String::new(),
            left_trigger_min: 0,
            left_trigger_max: 1023,
            right_trigger_min: 0,
            right_trigger_max: 1023,
            vibration_main: 100,
            vibration_weak: 100,
            vibration_lt: 100,
            vibration_rt: 100,
            left_stick_x_curve: String::new(),
            left_stick_y_curve: String::new(),
            right_stick_x_curve: String::new(),
            right_stick_y_curve: String::new(),
            left_stick_deadzone: 0,
            right_stick_deadzone: 0,
            is_usb: false,
            profile_color: String::from_str("default"),
            profile_brightness: 100,
            live_buttons: 0,
            live_paddles: 0,
            live_lx: 0,
            live_ly: 0,
            live_rx: 0,
            live_ry: 0,
            live_lt: 0,
            live_rt: 0,
            config: GuiConfig::default(),
            sel_idx: 0,
            sysfs_path: None,
            hw_cache: HwProfileCache::default(),
            hw_cache_loaded: false,
        }
    }

    /// Show profile `idx` in the displayed values; nothing changes if there
    /// is no such profile.
    pub fn load_profile(&mut self, idx: usize)
        ensures
            final(self)@ == loaded(old(self)@, idx as int),
    {
        if idx >= self.config.profiles.len() {
            return;
        }
        let p = &self.config.profiles[idx];
        let name = p.name.clone();
        let c0 = curve_string(&p.stick_curves[0]);
        let c1 = curve_string(&p.stick_curves[1]);
        let c2 = curve_string(&p.stick_curves[2]);
        let c3 = curve_string(&p.stick_curves[3]);
        let (ltmn, ltmx): (i32, i32) = match p.trigger_zones[0] {
            Some(z) => (z.dead_min as i32, z.dead_max as i32),
            None => (0, 1023),
        };
        let (rtmn, rtmx): (i32, i32) = match p.trigger_zones[1] {
            Some(z) => (z.dead_min as i32, z.dead_max as i32),
            None => (0, 1023),
        };
        let vib = p.vibration;
        let dz = p.stick_deadzones;
        self.profile_name = name;
        self.left_stick_x_curve = c0;
        self.left_stick_y_curve = c1;
        self.right_stick_x_curve = c2;
        self.right_stick_y_curve = c3;
        self.left_trigger_min = ltmn;
        self.left_trigger_max = ltmx;
        self.right_trigger_min = rtmn;
        self.right_trigger_max = rtmx;
        self.vibration_main = vib.main_motor as i32;
        self.vibration_weak = vib.weak_motor as i32;
        self.vibration_lt = vib.left_trigger as i32;
        self.vibration_rt = vib.right_trigger as i32;
        self.left_stick_deadzone = dz[0] as i32;
        self.right_stick_deadzone = dz[1] as i32;
    }

    /// Select profile `index` (the GUI's index, taken as a position).
    pub fn select_profile(&mut self, index: i32)
        ensures
            final(self)@ == selected(old(self)@, index),
    {
        self.active_profile = index;
        self.sel_idx = index as usize;
        self.load_profile(index as usize);
    }
}

/// The remap rules without those whose source code is `code`.
pub open spec fn without_src(rs: Seq<RemapEntry>, code: u16) -> Seq<RemapEntry>
    decreases rs.len(),
{
    if rs.len() == 0 {
        Seq::empty()
    } else {
        without_src(rs.drop_last(), code) + if rs.last().src.code == code {
            Seq::empty()
        } else {
            seq![rs.last()]
        }
    }
}

/// The bits of the 32-bit float 1.0: the scale of a button remap.
pub const UNIT_SCALE_BITS: u32 = 0x3F80_0000;

/// A button-to-button remap rule with unit scale.
pub open spec fn key_remap(src: u16, dst: u16) -> RemapEntry {
    RemapEntry {
        src: InputId { ev_type: EV_KEY, code: src },
        dst: InputId { ev_type: EV_KEY, code: dst },
        scale_bits: UNIT_SCALE_BITS,
    }
}

/// The model with profile `idx` replaced.
pub open spec fn with_profile(v: ModelView, idx: int, p: GuiProfileView) -> ModelView {
    ModelView { profiles: v.profiles.update(idx, p), ..v }
}

/// The selected profile with the rules for `code` dropped.
pub open spec fn remaps_without(v: ModelView, code: u16) -> ModelView {
    let p = v.profiles[v.sel_idx as int];
    with_profile(v, v.sel_idx as int, GuiProfileView { remaps: without_src(p.remaps, code), ..p })
}

fn filter_remaps(rs: &Vec<RemapEntry>, code: u16) -> (res: Vec<RemapEntry>)
    ensures
        res@ == without_src(rs@, code),
{
    let mut out: Vec<RemapEntry> = Vec::new();
    let mut i: usize = 0;
    while i < rs.len()
        invariant
            i <= rs@.len(),
            out@ == without_src(rs@.take(i as int), code),
        decreases rs@.len() - i,
    {
        let r = rs[i];
        if r.src.code != code {
            out.push(r);
        }
        proof {
            assert(rs@.take(i + 1).drop_last() =~= rs@.take(i as int));
            assert(out@ =~= without_src(rs@.take(i + 1), code));
        }
        i = i + 1;
    }
    proof {
        assert(rs@.take(rs@.len() as int) =~= rs@);
    }
    out
}

impl ProfileModel {
    fn take_selected(&mut self) -> (res: GuiProfile)
        requires
            old(self).sel_idx < old(self).config.profiles@.len(),
        ensures
            res@ == old(self)@.profiles[old(self).sel_idx as int],
            final(self).config.profiles@.len() == old(self).config.profiles@.len() - 1,
            final(self).sel_idx == old(self).sel_idx,
            final(self)@ == (ModelView {
                profiles: old(self)@.profiles.remove(old(self).sel_idx as int),
                ..old(self)@
            }),
    {
        let p = self.config.profiles.remove(self.sel_idx);
        proof {
            assert(profile_views(self.config.profiles@) =~= old(self)@.profiles.remove(
                old(self).sel_idx as int,
            ));
        }
        p
    }

    fn put_selected(&mut self, p: GuiProfile)
        requires
            old(self).sel_idx <= old(self).config.profiles@.len(),
        ensures
            final(self)@ == (ModelView {
                profiles: old(self)@.profiles.insert(old(self).sel_idx as int, p@),
                ..old(self)@
            }),
    {
        self.config.profiles.insert(self.sel_idx, p);
        proof {
            assert(profile_views(self.config.profiles@) =~= old(self)@.profiles.insert(
                old(self).sel_idx as int,
                p@,
            ));
        }
    }

    /// Add a profile with default settings and select it.
    pub fn create_profile(&mut self, name: String)
        requires
            old(self).config.profiles@.len() < i32::MAX,
        ensures
            final(self)@ == selected(
                ModelView {
                    profiles: old(self)@.profiles.push(blank_profile(name@)),
                    profile_count: (old(self).config.profiles@.len() + 1) as i32,
                    ..old(self)@
                },
                old(self).config.profiles@.len() as i32,
            ),
    {
        self.config.profiles.push(GuiProfile::named(name));
        proof {
            assert(profile_views(self.config.profiles@) =~= old(self)@.profiles.push(
                blank_profile(name@),
            ));
        }
        let cnt = self.config.profiles.len() as i32;
        self.profile_count = cnt;
        self.select_profile(cnt - 1);
    }

    /// Delete the selected profile, unless it is the last one, and select
    /// the one now at its place (or the new last one).
    pub fn delete_profile(&mut self)
        requires
            old(self).config.profiles@.len() > 1 ==> old(self).sel_idx < old(
                self,
            ).config.profiles@.len(),
        ensures
            old(self).config.profiles@.len() <= 1 ==> final(self)@ == old(self)@,
            old(self).config.profiles@.len() > 1 ==> ({
                let n = (old(self).config.profiles@.len() - 1) as int;
                let ni = if old(self).sel_idx < n {
                    old(self).sel_idx as int
                } else {
                    n - 1
                };
                final(self)@ == selected(
                    ModelView {
                        profiles: old(self)@.profiles.remove(old(self).sel_idx as int),
                        profile_count: n as i32,
                        ..old(self)@
                    },
                    ni as i32,
                )
            }),
    {
        if self.config.profiles.len() > 1 {
            let idx = self.sel_idx;
            let _removed = self.take_selected();
            let cnt = self.config.profiles.len() as i32;
            self.profile_count = cnt;
            let last = self.config.profiles.len() - 1;
            let ni = if idx < last {
                idx
            } else {
                last
            };
            self.select_profile(ni as i32);
        }
    }

    /// Route button `src_code` to `dst_code` in the selected profile,
    /// replacing its earlier rules.
    pub fn set_remap(&mut self, src_code: i32, dst_code: i32)
        ensures
            old(self).sel_idx >= old(self).config.profiles@.len() ==> final(self)@ == old(self)@,
            old(self).sel_idx < old(self).config.profiles@.len() ==> ({
                let v = old(self)@;
                let p = v.profiles[v.sel_idx as int];
                final(self)@ == with_profile(
                    v,
                    v.sel_idx as int,
                    GuiProfileView {
                        remaps: without_src(p.remaps, src_code as u16).push(
                            key_remap(src_code as u16, dst_code as u16),
                        ),
                        ..p
                    },
                )
            }),
    {
        if self.sel_idx >= self.config.profiles.len() {
            return;
        }
        let mut p = self.take_selected();
        let mut remaps = filter_remaps(&p.remaps, src_code as u16);
        remaps.push(
            RemapEntry {
                src: InputId { ev_type: EV_KEY, code: src_code as u16 },
                dst: InputId { ev_type: EV_KEY, code: dst_code as u16 },
                scale_bits: UNIT_SCALE_BITS,
            },
        );
        p.remaps = remaps;
        self.put_selected(p);
        proof {
            assert(self@.profiles =~= old(self)@.profiles.update(
                old(self).sel_idx as int,
                p@,
            ));
        }
    }

    /// Drop the selected profile's rules for button `src_code`.
    pub fn remove_remap(&mut self, src_code: i32)
        ensures
            old(self).sel_idx >= old(self).config.profiles@.len() ==> final(self)@ == old(self)@,
            old(self).sel_idx < old(self).config.profiles@.len() ==> final(self)@ == remaps_without(
                old(self)@,
                src_code as u16,
            ),
    {
        if self.sel_idx >= self.config.profiles.len() {
            return;
        }
        let mut p = self.take_selected();
        p.remaps = filter_remaps(&p.remaps, src_code as u16);
        self.put_selected(p);
        proof {
            assert(self@.profiles =~= old(self)@.profiles.update(
                old(self).sel_idx as int,
                p@,
            ));
        }
    }
}

/// An integer clamped to `[lo, hi]`.
pub open spec fn clamp_i32(v: i32, lo: i32, hi: i32) -> i32 {
    if v < lo {
        lo
    } else if v > hi {
        hi
    } else {
        v
    }
}

fn clamp_to(v: i32, lo: i32, hi: i32) -> (res: i32)
    requires
        lo <= hi,
    ensures
        res == clamp_i32(v, lo, hi),
{
    if v < lo {
        lo
    } else if v > hi {
        hi
    } else {
        v
    }
}

/// The vibration settings with motor `motor` (0 main, 1 weak, 2 left
/// trigger, 3 right trigger) set to `v`; another motor changes nothing.
pub open spec fn vibration_with(vib: VibrationConfig, motor: i32, v: u8) -> VibrationConfig {
    if motor == 0 {
        VibrationConfig { main_motor: v, ..vib }
    } else if motor == 1 {
        VibrationConfig { weak_motor: v, ..vib }
    } else if motor == 2 {
        VibrationConfig { left_trigger: v, ..vib }
    } else if motor == 3 {
        VibrationConfig { right_trigger: v, ..vib }
    } else {
        vib
    }
}

/// Setting motor `motor` changes exactly the field it names, in the order
/// 0 main, 1 weak, 2 left trigger, 3 right trigger; any other motor number
/// changes nothing.
pub proof fn lemma_vibration_motor_fields(vib: VibrationConfig, motor: i32, v: u8)
    ensures
        vibration_with(vib, motor, v).main_motor == (if motor == 0 { v } else { vib.main_motor }),
        vibration_with(vib, motor, v).weak_motor == (if motor == 1 { v } else { vib.weak_motor }),
        vibration_with(vib, motor, v).left_trigger == (if motor == 2 { v } else { vib.left_trigger }),
        vibration_with(vib, motor, v).right_trigger == (if motor == 3 { v } else { vib.right_trigger }),
{
}

/// Whether `next` is `prev` with only stick curve `ai` of the selected
/// profile replaced by a curve through `points`.
pub open spec fn curve_set(prev: ModelView, next: ModelView, ai: int, points: Seq<i16>) -> bool {
    let i = prev.sel_idx as int;
    let p = prev.profiles[i];
    let q = next.profiles[i];
    &&& next == with_profile(prev, i, GuiProfileView { stick_curves: q.stick_curves, ..p })
    &&& q.stick_curves[ai] matches Some(c) && c.points@ == points
    &&& forall|j: int| 0 <= j < 4 && j != ai ==> q.stick_curves[j] == p.stick_curves[j]
}

impl ProfileModel {
    /// Set stick curve `axis` (0 LX, 1 LY, 2 RX, 3 RY) of the selected
    /// profile from a parsed point list: only a list of exactly sixteen
    /// points for an existing axis and profile is taken.
    pub fn apply_curve_points(&mut self, axis: i32, points: Option<Vec<i16>>)
        ensures
            ({
                let ok = points matches Some(pts) && pts@.len() == 16 && (axis as usize) < 4
                    && old(self).sel_idx < old(self).config.profiles@.len();
                &&& !ok ==> final(self)@ == old(self)@
                &&& ok ==> curve_set(old(self)@, final(self)@, axis as usize as int, points->0@)
            }),
    {
        let ai = axis as usize;
        match points {
            Some(pts) => {
                if pts.len() == 16 && ai < 4 && self.sel_idx < self.config.profiles.len() {
                    let mut arr: [i16; 16] = [0; 16];
                    let mut i: usize = 0;
                    while i < 16
                        invariant
                            i <= 16,
                            pts@.len() == 16,
                            forall|j: int| 0 <= j < i ==> arr@[j] == pts@[j],
                        decreases 16 - i,
                    {
                        arr[i] = pts[i];
                        i = i + 1;
                    }
                    proof {
                        assert(arr@ =~= pts@);
                    }
                    let mut p = self.take_selected();
                    p.stick_curves[ai] = Some(StickCurve { points: arr });
                    self.put_selected(p);
                    proof {
                        assert(self@.profiles =~= old(self)@.profiles.update(
                            old(self).sel_idx as int,
                            p@,
                        ));
                    }
                }
            },
            None => {},
        }
    }

    /// Set a stick curve of the selected profile from the JSON list of its
    /// points, as `apply_curve_points` does with the parsed list.
    pub fn set_stick_curve(&mut self, axis: i32, points_json: &str)
        ensures
            ({
                let parsed = json_i16_list(points_json@);
                let ok = parsed matches Some(pts) && pts.len() == 16 && (axis as usize) < 4
                    && old(self).sel_idx < old(self).config.profiles@.len();
                &&& !ok ==> final(self)@ == old(self)@
                &&& ok ==> curve_set(old(self)@, final(self)@, axis as usize as int, parsed->0)
            }),
    {
        let parsed = parse_points(points_json);
        self.apply_curve_points(axis, parsed);
    }

    /// Set trigger `trigger`'s dead zone (0 left, 1 right) in the selected
    /// profile, the bounds taken as 16-bit values, and show the bounds.
    pub fn set_trigger_zone(&mut self, trigger: i32, min_val: i32, max_val: i32)
        ensures
            trigger as usize >= 2 ==> final(self)@ == old(self)@,
            trigger as usize == 0 ==> final(self)@ == (ModelView {
                left_trigger_min: min_val,
                left_trigger_max: max_val,
                ..zone_set(old(self)@, 0, min_val, max_val)
            }),
            trigger as usize == 1 ==> final(self)@ == (ModelView {
                right_trigger_min: min_val,
                right_trigger_max: max_val,
                ..zone_set(old(self)@, 1, min_val, max_val)
            }),
    {
        let t = trigger as usize;
        if t < 2 {
            if self.sel_idx < self.config.profiles.len() {
                let mut p = self.take_selected();
                let ghost before = p.trigger_zones;
                let z = Some(TriggerZone { dead_min: min_val as u16, dead_max: max_val as u16 });
                p.trigger_zones[t] = z;
                proof {
                    if t == 0 {
                        assert(p.trigger_zones =~= [z, before[1]]);
                    } else {
                        assert(p.trigger_zones =~= [before[0], z]);
                    }
                }
                self.put_selected(p);
                proof {
                    assert(self@.profiles =~= old(self)@.profiles.update(
                        old(self).sel_idx as int,
                        p@,
                    ));
                }
            }
            if t == 0 {
                self.left_trigger_min = min_val;
                self.left_trigger_max = max_val;
            } else {
                self.right_trigger_min = min_val;
                self.right_trigger_max = max_val;
            }
        }
    }

    /// Set one motor's vibration (0 main, 1 weak, 2 left trigger, 3 right
    /// trigger) of the selected profile, clamped to 0-100.
    pub fn set_vibration(&mut self, motor: i32, intensity: i32)
        ensures
            old(self).sel_idx >= old(self).config.profiles@.len() ==> final(self)@ == old(self)@,
            old(self).sel_idx < old(self).config.profiles@.len() ==> ({
                let v = old(self)@;
                let p = v.profiles[v.sel_idx as int];
                final(self)@ == with_profile(
                    v,
                    v.sel_idx as int,
                    GuiProfileView {
                        vibration: vibration_with(
                            p.vibration,
                            motor,
                            clamp_i32(intensity, 0, 100) as u8,
                        ),
                        ..p
                    },
                )
            }),
            old(self).sel_idx < old(self).config.profiles@.len() ==> final(self)@.profiles[old(self).sel_idx as int].vibration.main_motor == (if motor == 0 { clamp_i32(intensity, 0, 100) as u8 } else { old(self)@.profiles[old(self).sel_idx as int].vibration.main_motor }),
            old(self).sel_idx < old(self).config.profiles@.len() ==> final(self)@.profiles[old(self).sel_idx as int].vibration.weak_motor == (if motor == 1 { clamp_i32(intensity, 0, 100) as u8 } else { old(self)@.profiles[old(self).sel_idx as int].vibration.weak_motor }),
            old(self).sel_idx < old(self).config.profiles@.len() ==> final(self)@.profiles[old(self).sel_idx as int].vibration.left_trigger == (if motor == 2 { clamp_i32(intensity, 0, 100) as u8 } else { old(self)@.profiles[old(self).sel_idx as int].vibration.left_trigger }),
            old(self).sel_idx < old(self).config.profiles@.len() ==> final(self)@.profiles[old(self).sel_idx as int].vibration.right_trigger == (if motor == 3 { clamp_i32(intensity, 0, 100) as u8 } else { old(self)@.profiles[old(self).sel_idx as int].vibration.right_trigger }),
    {
        proof {
            if old(self).sel_idx < old(self).config.profiles@.len() {
                lemma_vibration_motor_fields(
                    old(self)@.profiles[old(self).sel_idx as int].vibration,
                    motor,
                    clamp_i32(intensity, 0, 100) as u8,
                );
            }
        }
        let v = clamp_to(intensity, 0, 100) as u8;
        if self.sel_idx >= self.config.profiles.len() {
            return;
        }
        let mut p = self.take_selected();
        if motor == 0 {
            p.vibration.main_motor = v;
        } else if motor == 1 {
            p.vibration.weak_motor = v;
        } else if motor == 2 {
            p.vibration.left_trigger = v;
        } else if motor == 3 {
            p.vibration.right_trigger = v;
        }
        self.put_selected(p);
        proof {
            assert(self@.profiles =~= old(self)@.profiles.update(old(self).sel_idx as int, p@));
        }
    }

    /// Map hardware profile `hw_profile` (0-3) to software profile `sw_profile`.
    pub fn set_hw_profile_mapping(&mut self, hw_profile: i32, sw_profile: i32)
        ensures
            hw_profile as usize >= 4 ==> final(self)@ == old(self)@,
            (hw_profile as usize) < 4 ==> final(self)@ == (ModelView {
                hw_profile_map: final(self)@.hw_profile_map,
                ..old(self)@
            }) && final(self)@.hw_profile_map@ == old(self)@.hw_profile_map@.update(
                hw_profile as usize as int,
                sw_profile as usize,
            ),
    {
        let hw = hw_profile as usize;
        if hw < 4 {
            self.config.hw_profile_map[hw] = sw_profile as usize;
            proof {
                assert(self.config.hw_profile_map@ =~= old(self).config.hw_profile_map@.update(
                    hw as int,
                    sw_profile as usize,
                ));
            }
        }
    }

    /// Set a stick's dead zone (0 left, 1 right) in the selected profile,
    /// clamped to 0-50; the displayed value is the requested one.
    pub fn set_stick_deadzone(&mut self, stick: i32, value: i32)
        ensures
            stick as usize >= 2 ==> final(self)@ == old(self)@,
            stick as usize == 0 ==> final(self)@ == (ModelView {
                left_stick_deadzone: value,
                ..deadzone_set(old(self)@, 0, value)
            }),
            stick as usize == 1 ==> final(self)@ == (ModelView {
                right_stick_deadzone: value,
                ..deadzone_set(old(self)@, 1, value)
            }),
    {
        let s = stick as usize;
        if s < 2 {
            if self.sel_idx < self.config.profiles.len() {
                let mut p = self.take_selected();
                let ghost before = p.stick_deadzones;
                let d = clamp_to(value, 0, 50) as u16;
                p.stick_deadzones[s] = d;
                proof {
                    if s == 0 {
                        assert(p.stick_deadzones =~= [d, before[1]]);
                    } else {
                        assert(p.stick_deadzones =~= [before[0], d]);
                    }
                }
                self.put_selected(p);
                proof {
                    assert(self@.profiles =~= old(self)@.profiles.update(
                        old(self).sel_idx as int,
                        p@,
                    ));
                }
            }
            if s == 0 {
                self.left_stick_deadzone = value;
            } else {
                self.right_stick_deadzone = value;
            }
        }
    }

    /// Show a profile LED brightness.
    pub fn set_profile_brightness_value(&mut self, brightness: i32)
        ensures
            final(self)@ == (ModelView { profile_brightness: brightness, ..old(self)@ }),
    {
        self.profile_brightness = brightness;
    }

    /// The names of the software profiles, as a JSON list.
    pub fn get_profile_names(&self) -> (res: String)
        ensures
            res@ == json_of_strings(self@.profiles.map_values(|p: GuiProfileView| p.name)),
    {
        let mut names: Vec<String> = Vec::new();
        let mut i: usize = 0;
        while i < self.config.profiles.len()
            invariant
                i <= self.config.profiles@.len(),
                names@.len() == i,
                forall|j: int| 0 <= j < i ==> (#[trigger] names@[j])@ == self.config.profiles@[j].name@,
            decreases self.config.profiles@.len() - i,
        {
            names.push(self.config.profiles[i].name.clone());
            i = i + 1;
        }
        proof {
            assert(names@.map_values(|s: String| s@) =~= self@.profiles.map_values(
                |p: GuiProfileView| p.name,
            ));
        }
        strings_json(&names)
    }
}

/// The model with trigger `t`'s dead zone in the selected profile set (if
/// there is a selected profile).
pub open spec fn zone_set(v: ModelView, t: int, min_val: i32, max_val: i32) -> ModelView {
    if v.sel_idx < v.profiles.len() {
        let p = v.profiles[v.sel_idx as int];
        let z = Some(TriggerZone { dead_min: min_val as u16, dead_max: max_val as u16 });
        with_profile(
            v,
            v.sel_idx as int,
            GuiProfileView {
                trigger_zones: if t == 0 {
                    [z, p.trigger_zones[1]]
                } else {
                    [p.trigger_zones[0], z]
                },
                ..p
            },
        )
    } else {
        v
    }
}

/// The model with stick `s`'s dead zone in the selected profile set to the
/// clamped value (if there is a selected profile).
pub open spec fn deadzone_set(v: ModelView, s: int, value: i32) -> ModelView {
    if v.sel_idx < v.profiles.len() {
        let p = v.profiles[v.sel_idx as int];
        let d = clamp_i32(value, 0, 50) as u16;
        with_profile(
            v,
            v.sel_idx as int,
            GuiProfileView {
                stick_deadzones: if s == 0 {
                    [d, p.stick_deadzones[1]]
                } else {
                    [p.stick_deadzones[0], d]
                },
                ..p
            },
        )
    } else {
        v
    }
}

/// A lowercase hexadecimal digit.
pub open spec fn hex_digit(d: int) -> char {
    if d < 10 {
        (d + 48) as char
    } else {
        (d + 87) as char
    }
}

/// Two lowercase hexadecimal digits of a byte.
pub open spec fn hex_byte(b: u8) -> Seq<char> {
    seq![hex_digit(b as int / 16), hex_digit(b as int % 16)]
}

/// The text of a hardware profile color: `#rrggbb`, or `default`.
pub open spec fn color_text(color: Option<(u8, u8, u8)>) -> Seq<char> {
    match color {
        Some((r, g, b)) => seq!['#'] + hex_byte(r) + hex_byte(g) + hex_byte(b),
        None => "default"@,
    }
}

fn append_hex_byte(out: &mut String, b: u8)
    ensures
        final(out)@ == old(out)@ + hex_byte(b),
{
    let digits = "0123456789abcdef";
    proof {
        reveal_strlit("0123456789abcdef");
    }
    let hi = (b / 16) as usize;
    let lo = (b % 16) as usize;
    out.append(digits.substring_char(hi, hi + 1));
    out.append(digits.substring_char(lo, lo + 1));
    proof {
        assert(digits@.subrange(hi as int, hi + 1) =~= seq![hex_digit(hi as int)]);
        assert(digits@.subrange(lo as int, lo + 1) =~= seq![hex_digit(lo as int)]);
        assert(final(out)@ =~= old(out)@ + hex_byte(b));
    }
}

/// The text of a hardware profile color.
pub fn color_string(color: Option<(u8, u8, u8)>) -> (res: String)
    ensures
        res@ == color_text(color),
{
    match color {
        Some((r, g, b)) => {
            let mut s = String::from_str("#");
            proof {
                reveal_strlit("#");
            }
            append_hex_byte(&mut s, r);
            append_hex_byte(&mut s, g);
            append_hex_byte(&mut s, b);
            s
        },
        None => String::from_str("default"),
    }
}

/// The value of a hexadecimal digit (either case).
pub open spec fn hex_value(c: u8) -> Option<u8> {
    if 48 <= c <= 57 {
        Some((c - 48) as u8)
    } else if 97 <= c <= 102 {
        Some((c - 87) as u8)
    } else if 65 <= c <= 70 {
        Some((c - 55) as u8)
    } else {
        None
    }
}

/// What `u8::from_str_radix(.., 16)` gives for a two-byte text: two digits,
/// or a `+` sign and one digit.
pub open spec fn parse_hex_pair(a: u8, b: u8) -> Option<u8> {
    if a == 43 {
        hex_value(b)
    } else {
        match (hex_value(a), hex_value(b)) {
            (Some(x), Some(y)) => Some((16 * x + y) as u8),
            _ => None,
        }
    }
}

fn hex_value_of(c: u8) -> (res: Option<u8>)
    ensures
        res == hex_value(c),
{
    if 48 <= c && c <= 57 {
        Some(c - 48)
    } else if 97 <= c && c <= 102 {
        Some(c - 87)
    } else if 65 <= c && c <= 70 {
        Some(c - 55)
    } else {
        None
    }
}

fn hex_pair(a: u8, b: u8) -> (res: Option<u8>)
    ensures
        res == parse_hex_pair(a, b),
{
    if a == 43 {
        hex_value_of(b)
    } else {
        match (hex_value_of(a), hex_value_of(b)) {
            (Some(x), Some(y)) => Some(16 * x + y),
            _ => None,
        }
    }
}

/// The number of leading `#` bytes.
pub open spec fn hash_prefix_len(bs: Seq<u8>) -> int
    decreases bs.len(),
{
    if bs.len() > 0 && bs[0] == 35 {
        1 + hash_prefix_len(bs.subrange(1, bs.len() as int))
    } else {
        0
    }
}

/// The text without its leading `#` characters.
pub open spec fn without_hashes(bs: Seq<u8>) -> Seq<u8> {
    bs.subrange(hash_prefix_len(bs), bs.len() as int)
}

/// Whether position `i` of UTF-8 text starts a character (or ends the text).
pub open spec fn char_boundary(bs: Seq<u8>, i: int) -> bool {
    i == bs.len() || !(0x80 <= bs[i] < 0xC0)
}

/// Whether the color text can be cut into its three byte pairs: a text of
/// six bytes after its `#`s has characters starting at bytes 2 and 4.
pub open spec fn color_text_cuttable(bs: Seq<u8>) -> bool {
    let c = without_hashes(bs);
    c.len() == 6 ==> char_boundary(c, 2) && char_boundary(c, 4)
}

/// The color of a `#rrggbb` text (any number of leading `#`, hexadecimal
/// pairs as `u8::from_str_radix` reads them).
pub open spec fn parse_color_text(bs: Seq<u8>) -> Option<(u8, u8, u8)> {
    let c = without_hashes(bs);
    if c.len() != 6 {
        None
    } else {
        match (parse_hex_pair(c[0], c[1]), parse_hex_pair(c[2], c[3]), parse_hex_pair(c[4], c[5])) {
            (Some(r), Some(g), Some(b)) => Some((r, g, b)),
            _ => None,
        }
    }
}

proof fn lemma_hash_prefix_step(bs: Seq<u8>, k: int)
    requires
        0 <= k <= bs.len(),
        forall|i: int| 0 <= i < k ==> bs[i] == 35,
    ensures
        hash_prefix_len(bs) == k + hash_prefix_len(bs.subrange(k, bs.len() as int)),
    decreases k,
{
    if k > 0 {
        let t = bs.subrange(1, bs.len() as int);
        assert forall|i: int| 0 <= i < k - 1 implies t[i] == 35 by {
            assert(t[i] == bs[i + 1]);
        }
        lemma_hash_prefix_step(t, k - 1);
        assert(t.subrange(k - 1, t.len() as int) =~= bs.subrange(k, bs.len() as int));
    } else {
        assert(bs.subrange(0, bs.len() as int) =~= bs);
    }
}

/// Parse a `#rrggbb` color text.
pub fn parse_color_hex(hex: &str) -> (res: Option<(u8, u8, u8)>)
    requires
        color_text_cuttable(hex.spec_bytes()),
    ensures
        res == parse_color_text(hex.spec_bytes()),
{
    let bs = hex.as_bytes();
    let mut k: usize = 0;
    while k < bs.len() && bs[k] == 35
        invariant
            k <= bs@.len(),
            forall|i: int| 0 <= i < k ==> bs@[i] == 35,
        decreases bs@.len() - k,
    {
        k = k + 1;
    }
    proof {
        lemma_hash_prefix_step(bs@, k as int);
        let t = bs@.subrange(k as int, bs@.len() as int);
        if t.len() > 0 {
            assert(t[0] != 35);
        }
        assert(hash_prefix_len(t) == 0);
    }
    if bs.len() - k != 6 {
        return None;
    }
    let r = hex_pair(bs[k], bs[k + 1]);
    let g = hex_pair(bs[k + 2], bs[k + 3]);
    let b = hex_pair(bs[k + 4], bs[k + 5]);
    match (r, g, b) {
        (Some(r), Some(g), Some(b)) => Some((r, g, b)),
        _ => None,
    }
}

/// The name of a remap code, `?` when no button has it.
pub open spec fn code_name(code: u8) -> Seq<char> {
    match button_of_code(code) {
        Some(b) => button_name(b),
        None => seq!['?'],
    }
}

/// The hardware profile selected by a displayed profile number, if it is 1 to 3.
pub open spec fn hw_index(hw: i32) -> Option<int> {
    if 1 <= hw <= 3 {
        Some(hw - 1)
    } else {
        None
    }
}

/// The hardware profile cache with profile `i` replaced.
pub open spec fn cache_with(c: HwProfileCache, i: int, p: HwProfile) -> HwProfileCache {
    HwProfileCache {
        profiles: [
            if i == 0 {
                p
            } else {
                c.profiles[0]
            },
            if i == 1 {
                p
            } else {
                c.profiles[1]
            },
            if i == 2 {
                p
            } else {
                c.profiles[2]
            },
        ],
    }
}

/// The stick inversion bit of a stick (0 left, 1 right) and axis (0 X, 1 Y):
/// LY 0, RY 1, LX 2, RX 3.
pub open spec fn inversion_bit(stick: i32, axis: i32) -> Option<u8> {
    if stick == 0 && axis == 1 {
        Some(0)
    } else if stick == 1 && axis == 1 {
        Some(1)
    } else if stick == 0 && axis == 0 {
        Some(2)
    } else if stick == 1 && axis == 0 {
        Some(3)
    } else {
        None
    }
}

/// A mask with one bit set or cleared.
pub open spec fn mask_with(mask: u8, bit: u8, on: bool) -> u8 {
    if on {
        mask | (1u8 << bit)
    } else {
        mask & !(1u8 << bit)
    }
}

impl ProfileModel {
    fn store_cache_profile(&mut self, i: usize, p: HwProfile)
        requires
            i < 3,
        ensures
            final(self)@ == (ModelView { hw_cache: cache_with(old(self).hw_cache, i as int, p), ..old(self)@ }),
    {
        self.hw_cache.profiles[i] = p;
        proof {
            assert(self.hw_cache.profiles =~= cache_with(old(self).hw_cache, i as int, p).profiles);
        }
    }

    /// Show the current hardware profile's color from the snapshot: `default`
    /// without a snapshot, outside profiles 1 to 3, or for the default color.
    pub fn update_profile_color_from_cache(&mut self)
        ensures
            final(self)@ == (ModelView {
                profile_color: match hw_index(old(self).hw_profile) {
                    Some(i) if old(self).hw_cache_loaded => color_text(
                        old(self).hw_cache.profiles[i].color,
                    ),
                    _ => "default"@,
                },
                ..old(self)@
            }),
    {
        let hw = self.hw_profile;
        if hw < 1 || hw > 3 || !self.hw_cache_loaded {
            self.profile_color = String::from_str("default");
            return;
        }
        let idx = (hw - 1) as usize;
        self.profile_color = color_string(self.hw_cache.profiles[idx].color);
    }

    /// Show the current hardware profile's color (see
    /// `update_profile_color_from_cache`).
    pub fn read_hw_profile_color(&mut self)
        ensures
            final(self)@ == (ModelView {
                profile_color: match hw_index(old(self).hw_profile) {
                    Some(i) if old(self).hw_cache_loaded => color_text(
                        old(self).hw_cache.profiles[i].color,
                    ),
                    _ => "default"@,
                },
                ..old(self)@
            }),
    {
        self.update_profile_color_from_cache();
    }

    /// Set the current hardware profile's LED color from a `#rrggbb` text
    /// (USB only, profiles 1 to 3): the snapshot and the displayed text
    /// change at once and the write is returned.
    pub fn set_profile_color_hex(&mut self, hex: &str) -> (res: Option<WriteOp>)
        requires
            color_text_cuttable(hex.spec_bytes()),
        ensures
            ({
                let hw = old(self).hw_profile as u8;
                let ok = old(self).is_usb && 1 <= hw <= 3;
                let parsed = parse_color_text(hex.spec_bytes());
                &&& (!ok || parsed is None) ==> final(self)@ == old(self)@ && res is None
                &&& ok && parsed is Some ==> ({
                    let (r, g, b) = parsed->0;
                    let i = hw - 1;
                    &&& final(self)@ == (ModelView {
                        hw_cache: cache_with(
                            old(self).hw_cache,
                            i,
                            HwProfile { color: Some((r, g, b)), ..old(self).hw_cache.profiles[i] },
                        ),
                        profile_color: hex@,
                        ..old(self)@
                    })
                    &&& res matches Some(WriteOp::SetColor { profile_idx, r: r2, g: g2, b: b2 })
                        && profile_idx == i && r2 == r && g2 == g && b2 == b
                })
            }),
    {
        if !self.is_usb {
            return None;
        }
        let hw = self.hw_profile as u8;
        if hw < 1 || hw > 3 {
            return None;
        }
        match parse_color_hex(hex) {
            Some((r, g, b)) => {
                let idx = (hw - 1) as usize;
                let mut p = self.hw_cache.profiles[idx].clone();
                p.color = Some((r, g, b));
                self.store_cache_profile(idx, p);
                self.profile_color = String::from_str(hex);
                Some(WriteOp::SetColor { profile_idx: idx, r, g, b })
            },
            None => None,
        }
    }

    /// Invert or restore one stick axis of the current hardware profile
    /// (USB only, profiles 1 to 3): the snapshot changes at once and the
    /// write is returned.
    pub fn set_stick_invert(&mut self, stick: i32, axis: i32, inverted: bool) -> (res: Option<WriteOp>)
        ensures
            ({
                let ok = old(self).is_usb && hw_index(old(self).hw_profile) is Some
                    && inversion_bit(stick, axis) is Some;
                &&& !ok ==> final(self)@ == old(self)@ && res is None
                &&& ok ==> ({
                    let i = hw_index(old(self).hw_profile)->0;
                    let mask = mask_with(
                        old(self).hw_cache.profiles[i].stick_inversion,
                        inversion_bit(stick, axis)->0,
                        inverted,
                    );
                    &&& final(self)@ == (ModelView {
                        hw_cache: cache_with(
                            old(self).hw_cache,
                            i,
                            HwProfile { stick_inversion: mask, ..old(self).hw_cache.profiles[i] },
                        ),
                        ..old(self)@
                    })
                    &&& res matches Some(WriteOp::SetStickInversion { profile_idx, mask: m })
                        && profile_idx == i && m == mask
                })
            }),
    {
        if !self.is_usb {
            return None;
        }
        let hw = self.hw_profile;
        if hw < 1 || hw > 3 {
            return None;
        }
        let idx = (hw - 1) as usize;
        let bit: u8 = if stick == 0 && axis == 1 {
            0
        } else if stick == 1 && axis == 1 {
            1
        } else if stick == 0 && axis == 0 {
            2
        } else if stick == 1 && axis == 0 {
            3
        } else {
            return None;
        };
        let mut p = self.hw_cache.profiles[idx].clone();
        let mask = if inverted {
            p.stick_inversion | (1u8 << bit)
        } else {
            p.stick_inversion & !(1u8 << bit)
        };
        p.stick_inversion = mask;
        self.store_cache_profile(idx, p);
        Some(WriteOp::SetStickInversion { profile_idx: idx, mask })
    }

    /// The stick inversion flags of the current hardware profile, in the
    /// order LY, RY, LX, RX; all off without a snapshot or outside profiles
    /// 1 to 3.
    pub fn get_stick_inversion(&self) -> (res: [bool; 4])
        ensures
            ({
                let known = self.hw_cache_loaded && hw_index(self.hw_profile) is Some;
                &&& !known ==> res@ == seq![false, false, false, false]
                &&& known ==> ({
                    let m = self.hw_cache.profiles[hw_index(self.hw_profile)->0].stick_inversion;
                    res@ == seq![m & 0x01 != 0, m & 0x02 != 0, m & 0x04 != 0, m & 0x08 != 0]
                })
            }),
    {
        let hw = self.hw_profile;
        if hw < 1 || hw > 3 || !self.hw_cache_loaded {
            let r = [false, false, false, false];
            proof {
                assert(r@ =~= seq![false, false, false, false]);
            }
            return r;
        }
        let m = self.hw_cache.profiles[(hw - 1) as usize].stick_inversion;
        let r = [m & 0x01 != 0, m & 0x02 != 0, m & 0x04 != 0, m & 0x08 != 0];
        proof {
            assert(r@ =~= seq![m & 0x01 != 0, m & 0x02 != 0, m & 0x04 != 0, m & 0x08 != 0]);
        }
        r
    }

    /// Remap button `src` of the current hardware profile (USB only,
    /// profiles 1 to 3) in the normal page to `normal_dst` and in the shift
    /// page to `shift_dst`; names that name no button are skipped. Returns
    /// the writes.
    pub fn set_hw_remap(&self, src: &str, normal_dst: &str, shift_dst: &str) -> (res: Vec<WriteOp>)
        ensures
            ({
                let hw = self.hw_profile as u8;
                let from = button_named(src.spec_bytes());
                let to_n = button_named(normal_dst.spec_bytes());
                let to_s = button_named(shift_dst.spec_bytes());
                &&& (!self.is_usb || !(1 <= hw <= 3) || from is None) ==> res@.len() == 0
                &&& (self.is_usb && 1 <= hw <= 3 && from is Some) ==> ({
                    let n = if to_n is Some {
                        1int
                    } else {
                        0
                    };
                    &&& res@.len() == n + if to_s is Some {
                        1int
                    } else {
                        0
                    }
                    &&& to_n is Some ==> (res@[0] matches WriteOp::SetRemapNormal {
                        profile_idx,
                        from: f,
                        to,
                    } && profile_idx == hw - 1 && f == from->0 && to == to_n->0)
                    &&& to_s is Some ==> (res@[n] matches WriteOp::SetRemapShift {
                        profile_idx,
                        from: f,
                        to,
                    } && profile_idx == hw - 1 && f == from->0 && to == to_s->0)
                })
            }),
    {
        let mut ops: Vec<WriteOp> = Vec::new();
        if !self.is_usb {
            return ops;
        }
        let hw = self.hw_profile as u8;
        if hw < 1 || hw > 3 {
            return ops;
        }
        let idx = (hw - 1) as usize;
        let from = match GipButton::from_name(src) {
            Some(b) => b,
            None => return ops,
        };
        match GipButton::from_name(normal_dst) {
            Some(to) => ops.push(WriteOp::SetRemapNormal { profile_idx: idx, from, to }),
            None => {},
        }
        match GipButton::from_name(shift_dst) {
            Some(to) => ops.push(WriteOp::SetRemapShift { profile_idx: idx, from, to }),
            None => {},
        }
        ops
    }

    /// Choose a button as the shift modifier. The model does not support
    /// it: nothing changes and nothing is written.
    pub fn set_shift_button(&self, btn: &str) -> (res: Option<WriteOp>)
        ensures
            res is None,
    {
        None
    }

    /// Rename the controller (USB only): the displayed name changes at once
    /// and the write is returned.
    pub fn set_device_name_text(&mut self, name: String) -> (res: Option<WriteOp>)
        ensures
            !old(self).is_usb ==> final(self)@ == old(self)@ && res is None,
            old(self).is_usb ==> final(self)@ == (ModelView { device_name: name@, ..old(self)@ })
                && (res matches Some(WriteOp::SetDeviceName { name: n }) && n@ == name@),
    {
        if !self.is_usb {
            return None;
        }
        self.device_name = name.clone();
        Some(WriteOp::SetDeviceName { name })
    }

    /// Run one motor (0 left body, 1 right body, 2 left trigger, 3 right
    /// trigger) at an intensity clamped to 0-100 for 50 ms.
    pub fn test_vibration(&self, motor: i32, intensity: i32) -> (res: Option<WriteOp>)
        ensures
            !(0 <= motor <= 3) ==> res is None,
            0 <= motor <= 3 ==> ({
                let i = clamp_i32(intensity, 0, 100) as u8;
                res matches Some(WriteOp::Rumble { lm, rm, lt, rt, duration_ms }) && lm == (if motor
                    == 0 {
                    i
                } else {
                    0
                }) && rm == (if motor == 1 {
                    i
                } else {
                    0
                }) && lt == (if motor == 2 {
                    i
                } else {
                    0
                }) && rt == (if motor == 3 {
                    i
                } else {
                    0
                }) && duration_ms == 50
            }),
    {
        let i = clamp_to(intensity, 0, 100) as u8;
        if motor == 0 {
            Some(WriteOp::Rumble { lm: i, rm: 0, lt: 0, rt: 0, duration_ms: 50 })
        } else if motor == 1 {
            Some(WriteOp::Rumble { lm: 0, rm: i, lt: 0, rt: 0, duration_ms: 50 })
        } else if motor == 2 {
            Some(WriteOp::Rumble { lm: 0, rm: 0, lt: i, rt: 0, duration_ms: 50 })
        } else if motor == 3 {
            Some(WriteOp::Rumble { lm: 0, rm: 0, lt: 0, rt: i, duration_ms: 50 })
        } else {
            None
        }
    }

    /// Run all four motors at the displayed vibration values, clamped to
    /// 0-100, for 50 ms.
    pub fn test_all_vibration(&self) -> (res: WriteOp)
        ensures
            res matches WriteOp::Rumble { lm, rm, lt, rt, duration_ms } && lm == clamp_i32(
                self.vibration_main,
                0,
                100,
            ) as u8 && rm == clamp_i32(self.vibration_weak, 0, 100) as u8 && lt == clamp_i32(
                self.vibration_lt,
                0,
                100,
            ) as u8 && rt == clamp_i32(self.vibration_rt, 0, 100) as u8 && duration_ms == 50,
    {
        WriteOp::Rumble {
            lm: clamp_to(self.vibration_main, 0, 100) as u8,
            rm: clamp_to(self.vibration_weak, 0, 100) as u8,
            lt: clamp_to(self.vibration_lt, 0, 100) as u8,
            rt: clamp_to(self.vibration_rt, 0, 100) as u8,
            duration_ms: 50,
        }
    }
}

/// Labels of the face button slots.
pub open spec fn face_labels() -> Seq<Seq<char>> {
    seq!["A"@, "B"@, "X"@, "Y"@]
}

/// Labels of the extended slots.
pub open spec fn ext_labels() -> Seq<Seq<char>> {
    seq!["DUp"@, "DDown"@, "DLeft"@, "DRight"@, "LB"@, "RB"@, "L Stick"@, "R Stick"@]
}

/// Labels of the paddle slots.
pub open spec fn paddle_labels() -> Seq<Seq<char>> {
    seq!["P1"@, "P2"@, "P3"@, "P4"@]
}

/// The (label, button name) entries of the first `n` slots whose code
/// differs from the default.
pub open spec fn changed_slots(labels: Seq<Seq<char>>, codes: Seq<u8>, defaults: Seq<u8>, n: int) -> Seq<
    (Seq<char>, Seq<char>),
>
    decreases n,
{
    if n <= 0 {
        Seq::empty()
    } else {
        changed_slots(labels, codes, defaults, n - 1) + if codes[n - 1] != defaults[n - 1] {
            seq![(labels[n - 1], code_name(codes[n - 1]))]
        } else {
            Seq::empty()
        }
    }
}

/// The views of (label, name) pairs.
pub open spec fn pair_views(v: Seq<(&str, &str)>) -> Seq<(Seq<char>, Seq<char>)> {
    v.map_values(|p: (&str, &str)| (p.0@, p.1@))
}

/// The first code from `k` up to 0x0F that the extended slots lack.
pub open spec fn first_missing(ext: Seq<u8>, k: int) -> Option<u8>
    decreases 16 - k,
{
    if k >= 16 {
        None
    } else if !ext.contains(k as u8) {
        Some(k as u8)
    } else {
        first_missing(ext, k + 1)
    }
}

/// The shift button of a page's extended slots: when a slot is empty (the
/// shift modifier was shifted out of them), the lowest default button the
/// slots no longer hold.
pub open spec fn detected_shift(ext: Seq<u8>) -> Option<u8> {
    if ext.contains(0u8) {
        first_missing(ext, 8)
    } else {
        None
    }
}

/// What the GUI shows of a hardware profile: the remapped slots of the
/// normal and shift pages, the LED color and the shift button.
#[derive(Debug)]
pub struct HwProfileInfo {
    pub normal: Vec<(&'static str, &'static str)>,
    pub shift: Vec<(&'static str, &'static str)>,
    pub color: String,
    pub shift_button: Option<&'static str>,
}

/// The normal-page entries of a hardware profile: face, extended, then paddle slots.
pub open spec fn normal_entries(p: HwProfile) -> Seq<(Seq<char>, Seq<char>)> {
    changed_slots(face_labels(), p.face@, default_face(), 4) + changed_slots(
        ext_labels(),
        p.ext@,
        default_ext(),
        8,
    ) + changed_slots(paddle_labels(), p.paddles@, default_face(), 4)
}

/// The shift-page entries of a hardware profile.
pub open spec fn shift_entries(p: HwProfile) -> Seq<(Seq<char>, Seq<char>)> {
    changed_slots(face_labels(), p.shift_face@, default_face(), 4) + changed_slots(
        ext_labels(),
        p.shift_ext@,
        default_ext(),
        8,
    ) + changed_slots(paddle_labels(), p.shift_paddles@, default_face(), 4)
}

fn push_changed(
    out: &mut Vec<(&'static str, &'static str)>,
    labels: &[&'static str],
    codes: &[u8],
    defaults: &[u8],
)
    requires
        labels@.len() == codes@.len(),
        codes@.len() == defaults@.len(),
    ensures
        pair_views(final(out)@) == pair_views(old(out)@) + changed_slots(
            labels@.map_values(|s: &str| s@),
            codes@,
            defaults@,
            codes@.len() as int,
        ),
{
    let ghost ls = labels@.map_values(|s: &str| s@);
    let ghost start = old(out)@;
    let mut i: usize = 0;
    while i < codes.len()
        invariant
            i <= codes@.len(),
            labels@.len() == codes@.len(),
            codes@.len() == defaults@.len(),
            ls == labels@.map_values(|s: &str| s@),
            pair_views(out@) == pair_views(start) + changed_slots(ls, codes@, defaults@, i as int),
        decreases codes@.len() - i,
    {
        let ghost before = out@;
        if codes[i] != defaults[i] {
            out.push((labels[i], btn_name(codes[i])));
            proof {
                assert(pair_views(out@) =~= pair_views(before).push((ls[i as int], code_name(codes@[i as int]))));
            }
        }
        proof {
            assert(pair_views(out@) =~= pair_views(start) + changed_slots(ls, codes@, defaults@, i + 1));
        }
        i = i + 1;
    }
}

/// The JSON text that `serde_json` writes of a hardware profile's view: an
/// object with `normal` and `shift` (objects from slot label to button
/// name), `color` (a string) and `shift_button` (a string, or null).
pub uninterp spec fn json_of_hw_info(
    normal: Seq<(Seq<char>, Seq<char>)>,
    shift: Seq<(Seq<char>, Seq<char>)>,
    color: Seq<char>,
    shift_button: Option<Seq<char>>,
) -> Seq<char>;

/// The view of a name, if there is one.
pub open spec fn opt_name_view(n: Option<&str>) -> Option<Seq<char>> {
    match n {
        Some(n) => Some(n@),
        None => None,
    }
}

/// Builds a `serde_json::Map` of the view (label to name, a string or null)
/// and calls `Value::to_string` on it. The contract names the text as a
/// function of the view's fields.
#[verifier::external_body]
fn hw_info_json(info: &HwProfileInfo) -> (res: String)
    ensures
        res@ == json_of_hw_info(
            pair_views(info.normal@),
            pair_views(info.shift@),
            info.color@,
            opt_name_view(info.shift_button),
        ),
{
    let object = |pairs: &Vec<(&'static str, &'static str)>| -> serde_json::Value {
        pairs.iter().map(|(k, v)| (k.to_string(), serde_json::Value::from(*v))).collect::<serde_json::Map<_, _>>().into()
    };
    let mut top = serde_json::Map::new();
    top.insert("normal".to_string(), object(&info.normal));
    top.insert("shift".to_string(), object(&info.shift));
    top.insert("color".to_string(), serde_json::Value::from(info.color.as_str()));
    top.insert("shift_button".to_string(), serde_json::Value::from(info.shift_button));
    serde_json::Value::Object(top).to_string()
}

fn lowest_missing(ext: &[u8; 8]) -> (res: Option<u8>)
    ensures
        res == first_missing(ext@, 8),
{
    let mut k: u8 = 16;
    let mut found: Option<u8> = None;
    while k > 8
        invariant
            8 <= k <= 16,
            found == first_missing(ext@, k as int),
        decreases k,
    {
        k = k - 1;
        let mut present = false;
        let mut j: usize = 0;
        while j < 8
            invariant
                j <= 8,
                present == exists|t: int| 0 <= t < j && ext@[t] == k,
            decreases 8 - j,
        {
            if ext[j] == k {
                present = true;
            }
            j = j + 1;
        }
        proof {
            assert(present == ext@.contains(k));
        }
        if !present {
            found = Some(k);
        }
    }
    found
}

fn has_empty_slot(ext: &[u8; 8]) -> (res: bool)
    ensures
        res == ext@.contains(0u8),
{
    let mut j: usize = 0;
    while j < 8
        invariant
            j <= 8,
            forall|t: int| 0 <= t < j ==> ext@[t] != 0,
        decreases 8 - j,
    {
        if ext[j] == 0 {
            proof {
                assert(ext@[j as int] == 0u8);
            }
            return true;
        }
        j = j + 1;
    }
    false
}

impl ProfileModel {
    /// What to show of the current hardware profile; none without a
    /// snapshot or outside profiles 1 to 3.
    pub fn get_hw_profile_info(&self) -> (res: Option<HwProfileInfo>)
        ensures
            !self.hw_cache_loaded || hw_index(self.hw_profile) is None ==> res is None,
            self.hw_cache_loaded && hw_index(self.hw_profile) is Some ==> ({
                let p = self.hw_cache.profiles[hw_index(self.hw_profile)->0];
                res matches Some(info) && pair_views(info.normal@) == normal_entries(p) && pair_views(
                    info.shift@,
                ) == shift_entries(p) && info.color@ == color_text(p.color) && match detected_shift(
                    p.ext@,
                ) {
                    Some(c) => info.shift_button matches Some(n) && n@ == code_name(c),
                    None => info.shift_button is None,
                }
            }),
    {
        let hw = self.hw_profile;
        if hw < 1 || hw > 3 || !self.hw_cache_loaded {
            return None;
        }
        let p = &self.hw_cache.profiles[(hw - 1) as usize];
        let df = default_face_array();
        let de = default_ext_array();
        let fl: [&'static str; 4] = ["A", "B", "X", "Y"];
        let el: [&'static str; 8] = ["DUp", "DDown", "DLeft", "DRight", "LB", "RB", "L Stick", "R Stick"];
        let pl: [&'static str; 4] = ["P1", "P2", "P3", "P4"];
        proof {
            assert(fl@.map_values(|s: &str| s@) =~= face_labels());
            assert(el@.map_values(|s: &str| s@) =~= ext_labels());
            assert(pl@.map_values(|s: &str| s@) =~= paddle_labels());
        }
        let mut normal: Vec<(&'static str, &'static str)> = Vec::new();
        proof {
            assert(pair_views(normal@) =~= Seq::empty());
        }
        push_changed(&mut normal, &fl, &p.face, &df);
        push_changed(&mut normal, &el, &p.ext, &de);
        push_changed(&mut normal, &pl, &p.paddles, &df);
        let mut shift: Vec<(&'static str, &'static str)> = Vec::new();
        proof {
            assert(pair_views(shift@) =~= Seq::empty());
        }
        push_changed(&mut shift, &fl, &p.shift_face, &df);
        push_changed(&mut shift, &el, &p.shift_ext, &de);
        push_changed(&mut shift, &pl, &p.shift_paddles, &df);
        proof {
            assert(pair_views(normal@) =~= normal_entries(*p));
            assert(pair_views(shift@) =~= shift_entries(*p));
        }
        let shift_button = if has_empty_slot(&p.ext) {
            match lowest_missing(&p.ext) {
                Some(c) => Some(btn_name(c)),
                None => None,
            }
        } else {
            None
        };
        proof {
            match detected_shift(p.ext@) {
                Some(c) => {
                    assert(8 <= c < 16) by {
                        lemma_first_missing_range(p.ext@, 8);
                    }
                    assert(button_of_code(c) is Some);
                },
                None => {},
            }
        }
        Some(HwProfileInfo { normal, shift, color: color_string(p.color), shift_button })
    }
}

impl ProfileModel {
    /// The JSON text of what the GUI shows of the current hardware profile:
    /// `{}` without a snapshot or outside profiles 1 to 3.
    pub fn get_hw_profile_info_json(&self) -> (res: String)
        ensures
            !self.hw_cache_loaded || hw_index(self.hw_profile) is None ==> res@ == "{}"@,
            self.hw_cache_loaded && hw_index(self.hw_profile) is Some ==> ({
                let p = self.hw_cache.profiles[hw_index(self.hw_profile)->0];
                res@ == json_of_hw_info(
                    normal_entries(p),
                    shift_entries(p),
                    color_text(p.color),
                    match detected_shift(p.ext@) {
                        Some(c) => Some(code_name(c)),
                        None => None,
                    },
                )
            }),
    {
        match self.get_hw_profile_info() {
            Some(info) => hw_info_json(&info),
            None => String::from_str("{}"),
        }
    }
}

proof fn lemma_first_missing_range(ext: Seq<u8>, k: int)
    requires
        k >= 8,
    ensures
        first_missing(ext, k) matches Some(c) ==> k <= c < 16,
    decreases 16 - k,
{
    if k < 16 && ext.contains(k as u8) {
        lemma_first_missing_range(ext, k + 1);
    }
}

/// Deleting a profile right after creating it gives back the profile list:
/// the new profile is the selected one, so a delete may remove it, and
/// removing it leaves the profiles as they were.
pub proof fn lemma_delete_undoes_create(v: ModelView, name: Seq<char>)
    requires
        v.profiles.len() < i32::MAX,
    ensures
        ({
            let n = v.profiles.len();
            let created = selected(
                ModelView {
                    profiles: v.profiles.push(blank_profile(name)),
                    profile_count: (n + 1) as i32,
                    ..v
                },
                n as i32,
            );
            &&& created.sel_idx == n
            &&& created.profiles.len() == n + 1
            &&& created.profiles.remove(created.sel_idx as int) == v.profiles
        }),
{
    let n = v.profiles.len();
    assert(v.profiles.push(blank_profile(name)).remove(n as int) =~= v.profiles);
}

/// After the shift modifier is moved out of the default extended slots,
/// the shift button shown is that modifier.
pub proof fn lemma_shift_button_detected(k: int)
    requires
        0 <= k < 8,
    ensures
        detected_shift(ext_without(default_ext(), k)) == Some((8 + k) as u8),
{
    let e = ext_without(default_ext(), k);
    assert(e[7] == 0u8);
    assert(e.contains(0u8));
    assert forall|c: u8| 8 <= c < 8 + k implies #[trigger] e.contains(c) by {
        assert(e[c - 8] == c);
    }
    assert(!e.contains((8 + k) as u8)) by {
        assert forall|j: int| 0 <= j < 8 implies e[j] != (8 + k) as u8 by {
            if j < k {
                assert(e[j] == (8 + j) as u8);
            } else if j < 7 {
                assert(e[j] == (9 + j) as u8);
            }
        }
    }
    lemma_first_missing_prefix(e, 8, 8 + k);
}

proof fn lemma_first_missing_prefix(ext: Seq<u8>, from: int, to: int)
    requires
        8 <= from <= to < 16,
        forall|c: u8| from <= c < to ==> #[trigger] ext.contains(c),
        !ext.contains(to as u8),
    ensures
        first_missing(ext, from) == Some(to as u8),
    decreases to - from,
{
    if from < to {
        assert(ext.contains(from as u8));
        lemma_first_missing_prefix(ext, from + 1, to);
    }
}

/// The live input shown by the GUI.
#[derive(Debug, Clone, Copy, PartialEq, Eq, Structural)]
pub struct ControllerInput {
    /// A, B, X, Y, LB, RB, View, Menu, Xbox, LS, RS in bits 0 to 10.
    pub buttons: u16,
    /// P1 to P4 in bits 0 to 3.
    pub paddles: u8,
    pub left_stick_x: i16,
    pub left_stick_y: i16,
    pub right_stick_x: i16,
    pub right_stick_y: i16,
    pub left_trigger: u16,
    pub right_trigger: u16,
}

impl Default for ControllerInput {
    fn default() -> (res: Self)
        ensures
            res == (ControllerInput {
                buttons: 0,
                paddles: 0,
                left_stick_x: 0,
                left_stick_y: 0,
                right_stick_x: 0,
                right_stick_y: 0,
                left_trigger: 0,
                right_trigger: 0,
            }),
    {
        ControllerInput {
            buttons: 0,
            paddles: 0,
            left_stick_x: 0,
            left_stick_y: 0,
            right_stick_x: 0,
            right_stick_y: 0,
            left_trigger: 0,
            right_trigger: 0,
        }
    }
}

/// The bit of a key code in the live input: buttons 0 to 10, paddles
/// (`BTN_TRIGGER_HAPPY1` to `4`) 16 to 19.
pub open spec fn input_bit(code: u16) -> Option<u8> {
    if code == 0x130 {
        Some(0)
    } else if code == 0x131 {
        Some(1)
    } else if code == 0x133 {
        Some(2)
    } else if code == 0x134 {
        Some(3)
    } else if code == 0x136 {
        Some(4)
    } else if code == 0x137 {
        Some(5)
    } else if code == 0x13A {
        Some(6)
    } else if code == 0x13B {
        Some(7)
    } else if code == 0x13C {
        Some(8)
    } else if code == 0x13D {
        Some(9)
    } else if code == 0x13E {
        Some(10)
    } else if 0x2C0 <= code <= 0x2C3 {
        Some((code - 0x2C0 + 16) as u8)
    } else {
        None
    }
}

fn input_bit_of(code: u16) -> (res: Option<u8>)
    ensures
        res == input_bit(code),
{
    if code == 0x130 {
        Some(0)
    } else if code == 0x131 {
        Some(1)
    } else if code == 0x133 {
        Some(2)
    } else if code == 0x134 {
        Some(3)
    } else if code == 0x136 {
        Some(4)
    } else if code == 0x137 {
        Some(5)
    } else if code == 0x13A {
        Some(6)
    } else if code == 0x13B {
        Some(7)
    } else if code == 0x13C {
        Some(8)
    } else if code == 0x13D {
        Some(9)
    } else if code == 0x13E {
        Some(10)
    } else if 0x2C0 <= code && code <= 0x2C3 {
        Some((code - 0x2C0 + 16) as u8)
    } else {
        None
    }
}

/// The live input after one input event: a key press (value 1) or release
/// (value 0) sets or clears its bit, an axis event sets its value; other
/// events and values change nothing.
pub open spec fn input_after(s: ControllerInput, ev_type: u16, code: u16, value: i32) -> ControllerInput {
    if ev_type == 1 && (value == 0 || value == 1) {
        match input_bit(code) {
            Some(b) => if b >= 16 {
                let m = 1u8 << ((b - 16) as u8);
                ControllerInput {
                    paddles: if value == 1 {
                        s.paddles | m
                    } else {
                        s.paddles & !m
                    },
                    ..s
                }
            } else {
                let m = 1u16 << b;
                ControllerInput {
                    buttons: if value == 1 {
                        s.buttons | m
                    } else {
                        s.buttons & !m
                    },
                    ..s
                }
            },
            None => s,
        }
    } else if ev_type == 3 {
        if code == 0x00 {
            ControllerInput { left_stick_x: value as i16, ..s }
        } else if code == 0x01 {
            ControllerInput { left_stick_y: value as i16, ..s }
        } else if code == 0x03 {
            ControllerInput { right_stick_x: value as i16, ..s }
        } else if code == 0x04 {
            ControllerInput { right_stick_y: value as i16, ..s }
        } else if code == 0x02 {
            ControllerInput { left_trigger: value as u16, ..s }
        } else if code == 0x05 {
            ControllerInput { right_trigger: value as u16, ..s }
        } else {
            s
        }
    } else {
        s
    }
}

/// Apply one input event of the controller's evdev node to the live input.
pub fn update_input(state: &mut ControllerInput, ev_type: u16, code: u16, value: i32)
    ensures
        *final(state) == input_after(*old(state), ev_type, code, value),
{
    if ev_type == 1 && (value == 0 || value == 1) {
        match input_bit_of(code) {
            Some(b) => {
                if b >= 16 {
                    let m: u8 = 1u8 << (b - 16);
                    if value == 1 {
                        state.paddles = state.paddles | m;
                    } else {
                        state.paddles = state.paddles & !m;
                    }
                } else {
                    let m: u16 = 1u16 << b;
                    if value == 1 {
                        state.buttons = state.buttons | m;
                    } else {
                        state.buttons = state.buttons & !m;
                    }
                }
            },
            None => {},
        }
    } else if ev_type == 3 {
        if code == 0x00 {
            state.left_stick_x = value as i16;
        } else if code == 0x01 {
            state.left_stick_y = value as i16;
        } else if code == 0x03 {
            state.right_stick_x = value as i16;
        } else if code == 0x04 {
            state.right_stick_y = value as i16;
        } else if code == 0x02 {
            state.left_trigger = value as u16;
        } else if code == 0x05 {
            state.right_trigger = value as u16;
        }
    }
}

/// What device detection found.
#[derive(Debug)]
pub struct ControllerInfo {
    pub connected: bool,
    pub is_usb: bool,
    pub name: String,
    pub hw_profile: u8,
    /// The controller's evdev node.
    pub event_path: Option<String>,
    /// The controller's sysfs directory.
    pub sysfs_path: Option<String>,
}

/// The detection result when no controller is bound.
pub fn disconnected() -> (res: ControllerInfo)
    ensures
        !res.connected && !res.is_usb && res.hw_profile == 0,
        res.name@ == "No controller found"@,
        res.event_path is None && res.sysfs_path is None,
{
    ControllerInfo {
        connected: false,
        is_usb: false,
        name: String::from_str("No controller found"),
        hw_profile: 0,
        event_path: None,
        sysfs_path: None,
    }
}

/// The detection result when the kernel module is not loaded.
pub fn module_not_loaded() -> (res: ControllerInfo)
    ensures
        !res.connected && !res.is_usb && res.hw_profile == 0,
        res.name@ == "xbelite2 module not loaded"@,
        res.event_path is None && res.sysfs_path is None,
{
    ControllerInfo {
        connected: false,
        is_usb: false,
        name: String::from_str("xbelite2 module not loaded"),
        hw_profile: 0,
        event_path: None,
        sysfs_path: None,
    }
}

/// The detection result for a bound controller.
pub fn bound_controller(
    is_usb: bool,
    hw_profile: u8,
    event_path: Option<String>,
    sysfs_path: String,
) -> (res: ControllerInfo)
    ensures
        res.connected && res.is_usb == is_usb && res.hw_profile == hw_profile,
        res.name@ == "Xbox Elite Wireless Controller Series 2"@,
        res.event_path == event_path,
        res.sysfs_path == Some(sysfs_path),
{
    ControllerInfo {
        connected: true,
        is_usb,
        name: String::from_str("Xbox Elite Wireless Controller Series 2"),
        hw_profile,
        event_path,
        sysfs_path: Some(sysfs_path),
    }
}

/// Whether an entry of the USB driver's directory is a bound interface
/// (its name holds a `:`).
pub fn is_usb_interface_entry(name: &str) -> (res: bool)
    ensures
        res == name.spec_bytes().contains(58u8),
{
    let bs = name.as_bytes();
    let mut i: usize = 0;
    while i < bs.len()
        invariant
            i <= bs@.len(),
            bs@ == name.spec_bytes(),
            forall|j: int| 0 <= j < i ==> bs@[j] != 58u8,
        decreases bs@.len() - i,
    {
        if bs[i] == 58 {
            proof {
                assert(bs@[i as int] == 58u8);
                assert(bs@.contains(58u8));
            }
            return true;
        }
        i = i + 1;
    }
    proof {
        if bs@.contains(58u8) {
            let k = choose|k: int| 0 <= k < bs@.len() && bs@[k] == 58u8;
            assert(bs@[k] != 58u8);
        }
    }
    false
}

/// The bytes of `0005:045E:`, the name prefix of a Bluetooth (bus 0005)
/// Microsoft (vendor 045E) HID device.
pub open spec fn bt_microsoft_prefix() -> Seq<u8> {
    seq![48u8, 48, 48, 53, 58, 48, 52, 53, 69, 58]
}

/// Whether an entry of the HID driver's directory is a Bluetooth device of
/// Microsoft (its name starts with `0005:045E:`).
pub fn is_bt_hid_entry(name: &str) -> (res: bool)
    ensures
        res == (name.spec_bytes().len() >= 10 && name.spec_bytes().subrange(0, 10)
            == bt_microsoft_prefix()),
{
    let bs = name.as_bytes();
    let prefix: [u8; 10] = [48, 48, 48, 53, 58, 48, 52, 53, 69, 58];
    proof {
        assert(prefix@ =~= bt_microsoft_prefix());
    }
    if bs.len() < 10 {
        return false;
    }
    let mut i: usize = 0;
    while i < 10
        invariant
            i <= 10,
            bs@.len() >= 10,
            bs@ == name.spec_bytes(),
            prefix@ == bt_microsoft_prefix(),
            forall|j: int| 0 <= j < i ==> bs@[j] == prefix@[j],
        decreases 10 - i,
    {
        if bs[i] != prefix[i] {
            proof {
                assert(bs@.subrange(0, 10)[i as int] != prefix@[i as int]);
                assert(bs@.subrange(0, 10) != bt_microsoft_prefix());
            }
            return false;
        }
        i = i + 1;
    }
    proof {
        assert(bs@.subrange(0, 10) =~= prefix@);
    }
    true
}

/// Which bound device a detection takes.
#[derive(Debug, Clone, Copy, PartialEq, Eq, Structural)]
pub enum DetectChoice {
    /// Neither of the module's drivers is registered.
    ModuleMissing,
    /// The USB driver's entry at this index.
    Usb(usize),
    /// The HID driver's entry at this index (a Bluetooth controller).
    Bt(usize),
    /// The module is loaded but binds no controller.
    Disconnected,
}

/// Whether a USB driver entry (its name, whether it is a directory) is a
/// bound interface.
pub open spec fn usb_entry_ok(e: (&str, bool)) -> bool {
    e.0.spec_bytes().contains(58u8) && e.1
}

/// Whether a HID driver entry is a Bluetooth controller of Microsoft.
pub open spec fn bt_entry_ok(name: &str) -> bool {
    name.spec_bytes().len() >= 10 && name.spec_bytes().subrange(0, 10) == bt_microsoft_prefix()
}

/// Whether `i` is the first USB entry that is a bound interface.
pub open spec fn first_usb(es: Seq<(&str, bool)>, i: int) -> bool {
    0 <= i < es.len() && usb_entry_ok(es[i]) && forall|j: int| 0 <= j < i ==> !usb_entry_ok(
        #[trigger] es[j],
    )
}

/// Whether `i` is the first HID entry that is a Bluetooth controller.
pub open spec fn first_bt(es: Seq<&str>, i: int) -> bool {
    0 <= i < es.len() && bt_entry_ok(es[i]) && forall|j: int| 0 <= j < i ==> !bt_entry_ok(
        #[trigger] es[j],
    )
}

/// Choose the device a detection reports, from what the module's driver
/// directories hold: whether the HID and the USB driver are registered,
/// the USB driver's entries (name, is a directory) and the HID driver's
/// entry names, in directory order. The first bound USB interface wins,
/// then the first Bluetooth HID device.
pub fn choose_controller(
    hid_present: bool,
    usb_present: bool,
    usb_entries: &[(&str, bool)],
    hid_entries: &[&str],
) -> (res: DetectChoice)
    ensures
        (res is ModuleMissing) <==> (!hid_present && !usb_present),
        res matches DetectChoice::Usb(i) ==> usb_present && first_usb(usb_entries@, i as int),
        res matches DetectChoice::Bt(i) ==> hid_present && first_bt(hid_entries@, i as int) && !(
        usb_present && exists|j: int| first_usb(usb_entries@, j)),
        (usb_present && exists|j: int| first_usb(usb_entries@, j)) ==> res is Usb,
        (hid_present && exists|j: int| first_bt(hid_entries@, j)) ==> (res is Usb || res is Bt),
        res is Disconnected ==> !(usb_present && exists|j: int| first_usb(usb_entries@, j)) && !(
        hid_present && exists|j: int| first_bt(hid_entries@, j)),
{
    if !hid_present && !usb_present {
        return DetectChoice::ModuleMissing;
    }
    if usb_present {
        let mut i: usize = 0;
        while i < usb_entries.len()
            invariant
                usb_present,
                i <= usb_entries@.len(),
                forall|j: int| 0 <= j < i ==> !usb_entry_ok(#[trigger] usb_entries@[j]),
            decreases usb_entries@.len() - i,
        {
            let (name, is_dir) = usb_entries[i];
            if is_usb_interface_entry(name) && is_dir {
                return DetectChoice::Usb(i);
            }
            i = i + 1;
        }
        proof {
            assert forall|j: int| !first_usb(usb_entries@, j) by {
                if first_usb(usb_entries@, j) {
                    assert(!usb_entry_ok(usb_entries@[j]));
                }
            }
        }
    }
    if hid_present {
        let mut k: usize = 0;
        while k < hid_entries.len()
            invariant
                hid_present,
                !(usb_present && exists|j: int| first_usb(usb_entries@, j)),
                k <= hid_entries@.len(),
                forall|j: int| 0 <= j < k ==> !bt_entry_ok(#[trigger] hid_entries@[j]),
            decreases hid_entries@.len() - k,
        {
            if is_bt_hid_entry(hid_entries[k]) {
                return DetectChoice::Bt(k);
            }
            k = k + 1;
        }
        proof {
            assert forall|j: int| !first_bt(hid_entries@, j) by {
                if first_bt(hid_entries@, j) {
                    assert(!bt_entry_ok(hid_entries@[j]));
                }
            }
        }
    }
    DetectChoice::Disconnected
}

/// The I/O that follows a detection: the evdev node to open, whether to
/// read the hardware profiles and whether to read the device name.
#[derive(Debug)]
pub struct DetectAction {
    pub open_event: Option<String>,
    pub read_cache: bool,
    pub read_name: bool,
}

/// The view of an optional string.
pub open spec fn opt_view(s: Option<String>) -> Option<Seq<char>> {
    match s {
        Some(p) => Some(p@),
        None => None,
    }
}

impl ProfileModel {
    /// Install a loaded configuration.
    pub fn install_config(&mut self, config: GuiConfig)
        ensures
            final(self)@ == (ModelView {
                profile_count: config.profiles@.len() as i32,
                profiles: profile_views(config.profiles@),
                hw_profile_map: config.hw_profile_map,
                active_override: config.active_override,
                ..old(self)@
            }),
    {
        self.profile_count = config.profiles.len() as i32;
        self.config = config;
    }

    /// Take the hardware profiles read from the controller, or note that
    /// none could be read.
    pub fn store_hw_cache(&mut self, cache: Option<HwProfileCache>)
        ensures
            cache is None ==> final(self)@ == (ModelView { hw_cache_loaded: false, ..old(self)@ }),
            cache matches Some(c) ==> final(self)@ == (ModelView {
                hw_cache: c,
                hw_cache_loaded: true,
                ..old(self)@
            }),
    {
        match cache {
            Some(c) => {
                self.hw_cache = c;
                self.hw_cache_loaded = true;
            },
            None => {
                self.hw_cache_loaded = false;
            },
        }
    }

    /// Show a device name read from the controller.
    pub fn show_device_name(&mut self, name: String)
        ensures
            final(self)@ == (ModelView { device_name: name@, ..old(self)@ }),
    {
        self.device_name = name;
    }

    /// Apply the detection made when the GUI starts.
    pub fn init_detection(&mut self, info: ControllerInfo) -> (res: DetectAction)
        ensures
            info.connected ==> final(self)@ == (ModelView {
                connected: true,
                is_usb: info.is_usb,
                device_name: info.name@,
                hw_profile: info.hw_profile as i32,
                sysfs_path: opt_view(info.sysfs_path),
                hw_cache_loaded: if info.is_usb {
                    old(self)@.hw_cache_loaded
                } else {
                    false
                },
                ..old(self)@
            }) && res.open_event == info.event_path && res.read_cache == info.is_usb
                && res.read_name == info.is_usb,
            !info.connected ==> final(self)@ == (ModelView {
                connected: false,
                device_name: info.name@,
                ..old(self)@
            }) && res.open_event is None && !res.read_cache && !res.read_name,
    {
        if info.connected {
            self.connected = true;
            self.is_usb = info.is_usb;
            self.device_name = info.name;
            self.hw_profile = info.hw_profile as i32;
            self.sysfs_path = info.sysfs_path;
            if !info.is_usb {
                self.hw_cache_loaded = false;
            }
            DetectAction { open_event: info.event_path, read_cache: info.is_usb, read_name: info.is_usb }
        } else {
            self.connected = false;
            self.device_name = info.name;
            DetectAction { open_event: None, read_cache: false, read_name: false }
        }
    }

    /// Apply a hardware profile number polled from the bound device; the
    /// color follows a change of profile.
    pub fn apply_polled_profile(&mut self, hw: u8)
        ensures
            hw as i32 == old(self).hw_profile ==> final(self)@ == old(self)@,
            hw as i32 != old(self).hw_profile ==> final(self)@ == (ModelView {
                hw_profile: hw as i32,
                profile_color: match hw_index(hw as i32) {
                    Some(i) if old(self).hw_cache_loaded => color_text(
                        old(self).hw_cache.profiles[i].color,
                    ),
                    _ => "default"@,
                },
                ..old(self)@
            }),
    {
        if hw as i32 != self.hw_profile {
            self.hw_profile = hw as i32;
            self.update_profile_color_from_cache();
        }
    }

    /// Show the live input.
    pub fn apply_live_input(&mut self, input: &ControllerInput)
        ensures
            final(self)@ == (ModelView {
                live_buttons: input.buttons as i32,
                live_paddles: input.paddles as i32,
                live_lx: input.left_stick_x as i32,
                live_ly: input.left_stick_y as i32,
                live_rx: input.right_stick_x as i32,
                live_ry: input.right_stick_y as i32,
                live_lt: input.left_trigger as i32,
                live_rt: input.right_trigger as i32,
                ..old(self)@
            }),
    {
        self.live_buttons = input.buttons as i32;
        self.live_paddles = input.paddles as i32;
        self.live_lx = input.left_stick_x as i32;
        self.live_ly = input.left_stick_y as i32;
        self.live_rx = input.right_stick_x as i32;
        self.live_ry = input.right_stick_y as i32;
        self.live_lt = input.left_trigger as i32;
        self.live_rt = input.right_trigger as i32;
    }

    /// Forget the bound device after it disappeared from sysfs.
    pub fn forget_device_path(&mut self)
        ensures
            final(self)@ == (ModelView { sysfs_path: None, ..old(self)@ }),
    {
        self.sysfs_path = None;
    }

    /// Apply a full detection made while polling: the displayed connection
    /// state follows it; a bound device is kept with its path, its color is
    /// shown from the snapshot and, without a snapshot, the hardware
    /// profiles are to be read (USB only; once read and stored, the color is
    /// shown again with `update_profile_color_from_cache`); an absent device
    /// drops the snapshot.
    pub fn apply_detection(&mut self, info: ControllerInfo) -> (res: DetectAction)
        ensures
            ({
                let base = ModelView {
                    connected: info.connected,
                    is_usb: info.is_usb,
                    device_name: info.name@,
                    hw_profile: info.hw_profile as i32,
                    ..old(self)@
                };
                &&& info.connected ==> final(self)@ == (ModelView {
                    sysfs_path: opt_view(info.sysfs_path),
                    profile_color: match hw_index(info.hw_profile as i32) {
                        Some(i) if old(self).hw_cache_loaded => color_text(
                            old(self).hw_cache.profiles[i].color,
                        ),
                        _ => "default"@,
                    },
                    ..base
                }) && res.open_event == info.event_path && res.read_cache == (
                !old(self).hw_cache_loaded && info.is_usb) && !res.read_name
                &&& !info.connected ==> final(self)@ == (ModelView {
                    hw_cache_loaded: false,
                    ..base
                }) && res.open_event is None && !res.read_cache && !res.read_name
            }),
    {
        self.connected = info.connected;
        self.is_usb = info.is_usb;
        self.device_name = info.name;
        self.hw_profile = info.hw_profile as i32;
        if info.connected {
            self.sysfs_path = info.sysfs_path;
            let read_cache = !self.hw_cache_loaded && info.is_usb;
            self.update_profile_color_from_cache();
            DetectAction { open_event: info.event_path, read_cache, read_name: false }
        } else {
            self.hw_cache_loaded = false;
            DetectAction { open_event: None, read_cache: false, read_name: false }
        }
    }
}

/// The bytes of an ASCII text.
pub open spec fn ascii_of(s: Seq<char>) -> Seq<u8> {
    s.map_values(|c: char| c as u8)
}

proof fn lemma_hex_digit_value(d: int)
    requires
        0 <= d < 16,
    ensures
        hex_value(hex_digit(d) as u8) == Some(d as u8),
        hex_digit(d) as u8 != 35 && hex_digit(d) as u8 != 43,
{
}

/// The text shown for a color parses back to that color.
pub proof fn lemma_color_text_roundtrip(r: u8, g: u8, b: u8)
    ensures
        parse_color_text(ascii_of(color_text(Some((r, g, b))))) == Some((r, g, b)),
{
    let t = ascii_of(color_text(Some((r, g, b))));
    let ds = seq![
        r as int / 16,
        r as int % 16,
        g as int / 16,
        g as int % 16,
        b as int / 16,
        b as int % 16,
    ];
    assert(t.len() == 7);
    assert(t[0] == 35u8);
    assert forall|i: int| 0 <= i < 6 implies #[trigger] t[i + 1] == hex_digit(ds[i]) as u8 by {}
    lemma_hex_digit_value(ds[0]);
    lemma_hex_digit_value(ds[1]);
    lemma_hex_digit_value(ds[2]);
    lemma_hex_digit_value(ds[3]);
    lemma_hex_digit_value(ds[4]);
    lemma_hex_digit_value(ds[5]);
    let rest = t.subrange(1, 7);
    assert(rest[0] == t[1]);
    assert(hash_prefix_len(rest) == 0);
    assert(hash_prefix_len(t) == 1);
    let c = without_hashes(t);
    assert(c =~= rest);
    assert(c[0] == t[1] && c[1] == t[2] && c[2] == t[3] && c[3] == t[4] && c[4] == t[5] && c[5] == t[6]);
    assert(16 * (r as int / 16) + r as int % 16 == r);
    assert(16 * (g as int / 16) + g as int % 16 == g);
    assert(16 * (b as int / 16) + b as int % 16 == b);
}

} // verus!

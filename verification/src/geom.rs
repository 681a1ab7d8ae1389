//! Static physical parameters of one robot, of the ball, and of the field:
//! immutable during simulation, shared read-only by every component of a tick.
//!
//! All lengths, speeds, torques and impulses are fixed-point milliunits.

use vstd::prelude::*;
use crate::data::MAX_WHEELS;
use crate::data::Vec3;

verus! {

/// Largest magnitude a geometry parameter may take (milliunits).
pub const GEOM_MAX: i64 = 1_000_000;

/// Physical constants of one robot, its ball, and the field it plays on.
#[derive(Clone, Debug, PartialEq)]
pub struct BotGeomData {
    pub bot_radius: i64,
    pub bot_mass: i64,
    pub bot_front_insink_depth: i64,
    /// Loaded and validated; the contact pocket model uses the outer width
    /// and depth only.
    pub bot_front_insink_inner_width: i64,
    pub bot_front_insink_outer_width: i64,
    /// Flattened (x, y) mount offsets of the line sensors, two entries each.
    pub bot_hitbox: Vec<i64>,

    pub wheel_fric_s: i64,
    pub wheel_fric_k: i64,
    pub wheel_max_speed: i64,
    pub wheel_max_torque: i64,
    pub small_wheel_fric_s: i64,
    pub small_wheel_fric_k: i64,
    pub n_wheels: u8,

    pub have_dribbler: bool,
    pub dribbler_edge_radius: i64,
    pub dribbler_middle_radius: i64,
    /// Reach of the dribbler contact volume in front of the chassis.
    pub dribbler_hitbox: Vec<i64>,
    pub dribbler_centering_tendency: i64,
    pub dribbler_width: i64,
    pub dribbler_max_speed: i64,
    /// Loaded and validated; pivot travel is not modeled — the contact box
    /// (reach, width) stands in for the pivoting dribbler volume.
    pub dribbler_down_pos: Vec3,
    pub dribbler_pivot_pos: Vec3,
    pub dribbler_max_pivot: i64,

    pub have_kicker: bool,
    pub kicker_max_impulse: i64,
    pub kicker_min_impulse: i64,
    pub kicker_elasticity: i64,
    pub kicker_uncertainty: i64,

    pub ball_mass: i64,
    pub ball_radius: i64,
    /// Loaded and validated; the ball's contact sphere is `ball_radius` and
    /// its rolling contact never leaves the kinetic regime, so `ball_hitbox`
    /// and `ball_fric_s` do not enter the dynamics.
    pub ball_hitbox: i64,
    pub ball_elasticity: i64,
    pub ball_fric_s: i64,
    pub ball_fric_k: i64,

    /// Half the field extent along the goal-to-goal axis.
    pub field_half_length: i64,
    /// Half the field extent across it.
    pub field_half_width: i64,
    /// Half the opening of each goal, centered on the field's long axis.
    pub goal_half_width: i64,
}

impl BotGeomData {
    pub open spec fn wf(self) -> bool {
        &&& 1 <= self.bot_radius <= GEOM_MAX
        &&& 1 <= self.bot_mass <= GEOM_MAX
        &&& 0 <= self.bot_front_insink_depth <= GEOM_MAX
        &&& 0 <= self.bot_front_insink_inner_width <= GEOM_MAX
        &&& 0 <= self.bot_front_insink_outer_width <= GEOM_MAX
        &&& self.bot_hitbox@.len() <= 32
        &&& (forall|i: int| 0 <= i < self.bot_hitbox@.len() ==> -GEOM_MAX <= #[trigger] self.bot_hitbox@[i] <= GEOM_MAX)
        &&& 0 <= self.wheel_fric_s <= GEOM_MAX
        &&& 0 <= self.wheel_fric_k <= GEOM_MAX
        &&& 0 <= self.wheel_max_speed <= GEOM_MAX
        &&& 0 <= self.wheel_max_torque <= GEOM_MAX
        &&& 0 <= self.small_wheel_fric_s <= GEOM_MAX
        &&& 0 <= self.small_wheel_fric_k <= GEOM_MAX
        &&& 1 <= self.n_wheels
        &&& self.n_wheels as int <= MAX_WHEELS as int
        &&& 0 <= self.dribbler_edge_radius <= GEOM_MAX
        &&& 0 <= self.dribbler_middle_radius <= GEOM_MAX
        &&& self.dribbler_hitbox@.len() <= 8
        &&& (forall|i: int| 0 <= i < self.dribbler_hitbox@.len() ==> -GEOM_MAX <= #[trigger] self.dribbler_hitbox@[i] <= GEOM_MAX)
        &&& 0 <= self.dribbler_centering_tendency <= GEOM_MAX
        &&& 0 <= self.dribbler_width <= GEOM_MAX
        &&& 0 <= self.dribbler_max_speed <= GEOM_MAX
        &&& self.dribbler_down_pos.abs_le(GEOM_MAX as int)
        &&& self.dribbler_pivot_pos.abs_le(GEOM_MAX as int)
        &&& 0 <= self.dribbler_max_pivot <= GEOM_MAX
        &&& 0 <= self.kicker_min_impulse <= self.kicker_max_impulse <= GEOM_MAX
        &&& 0 <= self.kicker_elasticity <= GEOM_MAX
        &&& 0 <= self.kicker_uncertainty <= GEOM_MAX
        &&& 1 <= self.ball_mass <= GEOM_MAX
        &&& 1 <= self.ball_radius <= GEOM_MAX
        &&& 0 <= self.ball_hitbox <= GEOM_MAX
        &&& 0 <= self.ball_elasticity <= GEOM_MAX
        &&& 0 <= self.ball_fric_s <= GEOM_MAX
        &&& 0 <= self.ball_fric_k <= GEOM_MAX
        &&& 1 <= self.field_half_length <= GEOM_MAX
        &&& 1 <= self.field_half_width <= GEOM_MAX
        &&& 1 <= self.goal_half_width <= self.field_half_width
    }
}

/// Loading a descriptor fails with one of these; never during simulation.
#[derive(Clone, Copy, Debug, PartialEq, Eq, Structural)]
pub enum ConfigError {
    /// The document is not valid JSON.
    Parse,
    /// A required key is absent.
    MissingKey,
    /// A key is present but not of the required type.
    WrongType,
    /// A value lies outside the representable range for its field.
    OutOfRange,
}

#[verifier::external_type_specification]
#[verifier::external_body]
pub struct ExJsonValue(serde_json::Value);

#[verifier::external_type_specification]
#[verifier::external_body]
pub struct ExJsonError(serde_json::Error);

/// The document that a text parses to, or `None` on a syntax error: what
/// serde_json::from_str returns, a function of the text alone.
pub uninterp spec fn spec_parsed(s: Seq<char>) -> Option<serde_json::Value>;

/// The member a JSON value holds under a string key, or `None`: what
/// serde_json::Value::get returns, a function of the value and key alone.
pub uninterp spec fn spec_member(v: serde_json::Value, k: Seq<char>) -> Option<serde_json::Value>;

/// The signed integer a JSON value represents, if it is one in range: what
/// serde_json::Value::as_i64 returns.
pub uninterp spec fn spec_int_of(v: serde_json::Value) -> Option<i64>;

/// The boolean a JSON value represents, if it is one: what
/// serde_json::Value::as_bool returns.
pub uninterp spec fn spec_bool_of(v: serde_json::Value) -> Option<bool>;

/// The elements a JSON value holds, if it is an array: what
/// serde_json::Value::as_array returns.
pub uninterp spec fn spec_array_of(v: serde_json::Value) -> Option<Seq<serde_json::Value>>;

/// Relies on serde_json::from_str: parses a JSON document (a pure function
/// of the text), or reports a syntax error.
#[verifier::external_body]
fn parse_json(s: &str) -> (r: Result<serde_json::Value, serde_json::Error>)
    ensures
        match r {
            Ok(v) => spec_parsed(s@) == Some(v),
            Err(_) => spec_parsed(s@) is None,
        },
{
    serde_json::from_str(s)
}

/// Relies on serde_json::Value::get: looks a key up in a JSON object.
#[verifier::external_body]
fn json_get<'a>(v: &'a serde_json::Value, key: &str) -> (r: Option<&'a serde_json::Value>)
    ensures
        match r {
            Some(m) => spec_member(*v, key@) == Some(*m),
            None => spec_member(*v, key@) is None,
        },
{
    v.get(key)
}

/// Relies on serde_json::Value::as_i64: the value as a signed integer, if it
/// is one.
#[verifier::external_body]
fn json_as_i64(v: &serde_json::Value) -> (r: Option<i64>)
    ensures
        r == spec_int_of(*v),
{
    v.as_i64()
}

/// Relies on serde_json::Value::as_bool: the value as a boolean, if it is
/// one.
#[verifier::external_body]
fn json_as_bool(v: &serde_json::Value) -> (r: Option<bool>)
    ensures
        r == spec_bool_of(*v),
{
    v.as_bool()
}

/// Relies on serde_json::Value::as_array: the value's elements, if it is an
/// array.
#[verifier::external_body]
fn json_as_array<'a>(v: &'a serde_json::Value) -> (r: Option<&'a Vec<serde_json::Value>>)
    ensures
        match r {
            Some(a) => spec_array_of(*v) == Some(a@),
            None => spec_array_of(*v) is None,
        },
{
    v.as_array()
}

/// The document holds integer `x` under key `k`.
pub open spec fn spec_int_field(doc: serde_json::Value, k: Seq<char>, x: i64) -> bool {
    match spec_member(doc, k) {
        Some(v) => spec_int_of(v) == Some(x),
        None => false,
    }
}

/// The document holds boolean `b` under key `k`.
pub open spec fn spec_bool_field(doc: serde_json::Value, k: Seq<char>, b: bool) -> bool {
    match spec_member(doc, k) {
        Some(v) => spec_bool_of(v) == Some(b),
        None => false,
    }
}

/// The document holds the integer list `s` under key `k`.
pub open spec fn spec_list_field(doc: serde_json::Value, k: Seq<char>, s: Seq<i64>) -> bool {
    match spec_member(doc, k) {
        Some(v) => match spec_array_of(v) {
            Some(a) => a.len() == s.len() && (forall|i: int|
                0 <= i < a.len() ==> spec_int_of(#[trigger] a[i]) == Some(s[i])),
            None => false,
        },
        None => false,
    }
}

/// Every field of the descriptor equals the document's value under its key.
pub open spec fn spec_geom_matches(doc: serde_json::Value, g: BotGeomData) -> bool {
    &&& spec_int_field(doc, "bot_radius"@, g.bot_radius)
    &&& spec_int_field(doc, "bot_mass"@, g.bot_mass)
    &&& spec_int_field(doc, "bot_front_insink_depth"@, g.bot_front_insink_depth)
    &&& spec_int_field(doc, "bot_front_insink_inner_width"@, g.bot_front_insink_inner_width)
    &&& spec_int_field(doc, "bot_front_insink_outer_width"@, g.bot_front_insink_outer_width)
    &&& spec_list_field(doc, "bot_hitbox"@, g.bot_hitbox@)
    &&& spec_int_field(doc, "wheel_fric_s"@, g.wheel_fric_s)
    &&& spec_int_field(doc, "wheel_fric_k"@, g.wheel_fric_k)
    &&& spec_int_field(doc, "wheel_max_speed"@, g.wheel_max_speed)
    &&& spec_int_field(doc, "wheel_max_torque"@, g.wheel_max_torque)
    &&& spec_int_field(doc, "small_wheel_fric_s"@, g.small_wheel_fric_s)
    &&& spec_int_field(doc, "small_wheel_fric_k"@, g.small_wheel_fric_k)
    &&& spec_int_field(doc, "n_wheels"@, g.n_wheels as i64)
    &&& spec_bool_field(doc, "have_dribbler"@, g.have_dribbler)
    &&& spec_int_field(doc, "dribbler_edge_radius"@, g.dribbler_edge_radius)
    &&& spec_int_field(doc, "dribbler_middle_radius"@, g.dribbler_middle_radius)
    &&& spec_list_field(doc, "dribbler_hitbox"@, g.dribbler_hitbox@)
    &&& spec_int_field(doc, "dribbler_centering_tendency"@, g.dribbler_centering_tendency)
    &&& spec_int_field(doc, "dribbler_width"@, g.dribbler_width)
    &&& spec_int_field(doc, "dribbler_max_speed"@, g.dribbler_max_speed)
    &&& spec_list_field(doc, "dribbler_down_pos"@, seq![g.dribbler_down_pos.x, g.dribbler_down_pos.y, g.dribbler_down_pos.z])
    &&& spec_list_field(doc, "dribbler_pivot_pos"@, seq![g.dribbler_pivot_pos.x, g.dribbler_pivot_pos.y, g.dribbler_pivot_pos.z])
    &&& spec_int_field(doc, "dribbler_max_pivot"@, g.dribbler_max_pivot)
    &&& spec_bool_field(doc, "have_kicker"@, g.have_kicker)
    &&& spec_int_field(doc, "kicker_max_impulse"@, g.kicker_max_impulse)
    &&& spec_int_field(doc, "kicker_min_impulse"@, g.kicker_min_impulse)
    &&& spec_int_field(doc, "kicker_elasticity"@, g.kicker_elasticity)
    &&& spec_int_field(doc, "kicker_uncertainty"@, g.kicker_uncertainty)
    &&& spec_int_field(doc, "ball_mass"@, g.ball_mass)
    &&& spec_int_field(doc, "ball_radius"@, g.ball_radius)
    &&& spec_int_field(doc, "ball_hitbox"@, g.ball_hitbox)
    &&& spec_int_field(doc, "ball_elasticity"@, g.ball_elasticity)
    &&& spec_int_field(doc, "ball_fric_s"@, g.ball_fric_s)
    &&& spec_int_field(doc, "ball_fric_k"@, g.ball_fric_k)
    &&& spec_int_field(doc, "field_half_length"@, g.field_half_length)
    &&& spec_int_field(doc, "field_half_width"@, g.field_half_width)
    &&& spec_int_field(doc, "goal_half_width"@, g.goal_half_width)
}

/// A required integer field of the document.
fn get_i64(doc: &serde_json::Value, key: &str) -> (r: Result<i64, ConfigError>)
    ensures
        match r {
            Ok(n) => spec_int_field(*doc, key@, n),
            Err(e) => {
                ||| e == ConfigError::MissingKey && spec_member(*doc, key@) is None
                ||| e == ConfigError::WrongType && (spec_member(*doc, key@) matches Some(v)
                    && spec_int_of(v) is None)
            },
        },
{
    match json_get(doc, key) {
        None => Err(ConfigError::MissingKey),
        Some(v) => match json_as_i64(v) {
            None => Err(ConfigError::WrongType),
            Some(n) => Ok(n),
        },
    }
}

/// A required boolean field of the document.
fn get_bool(doc: &serde_json::Value, key: &str) -> (r: Result<bool, ConfigError>)
    ensures
        match r {
            Ok(b) => spec_bool_field(*doc, key@, b),
            Err(e) => {
                ||| e == ConfigError::MissingKey && spec_member(*doc, key@) is None
                ||| e == ConfigError::WrongType && (spec_member(*doc, key@) matches Some(v)
                    && spec_bool_of(v) is None)
            },
        },
{
    match json_get(doc, key) {
        None => Err(ConfigError::MissingKey),
        Some(v) => match json_as_bool(v) {
            None => Err(ConfigError::WrongType),
            Some(b) => Ok(b),
        },
    }
}

/// A required integer-array field of the document.
fn get_i64_list(doc: &serde_json::Value, key: &str) -> (r: Result<Vec<i64>, ConfigError>)
    ensures
        match r {
            Ok(l) => spec_list_field(*doc, key@, l@),
            Err(e) => e == ConfigError::MissingKey || e == ConfigError::WrongType,
        },
{
    let arr = match json_get(doc, key) {
        None => {
            return Err(ConfigError::MissingKey);
        },
        Some(v) => match json_as_array(v) {
            None => {
                return Err(ConfigError::WrongType);
            },
            Some(a) => a,
        },
    };
    let mut out: Vec<i64> = Vec::new();
    let mut i: usize = 0;
    while i < arr.len()
        invariant
            0 <= i <= arr@.len(),
            out@.len() == i,
            forall|j: int| 0 <= j < i ==> spec_int_of(#[trigger] arr@[j]) == Some(out@[j]),
        decreases arr@.len() - i,
    {
        match json_as_i64(&arr[i]) {
            None => {
                return Err(ConfigError::WrongType);
            },
            Some(n) => out.push(n),
        }
        i = i + 1;
    }
    Ok(out)
}

/// A required three-component vector field of the document.
fn get_vec3(doc: &serde_json::Value, key: &str) -> (r: Result<Vec3, ConfigError>)
    ensures
        match r {
            Ok(p) => spec_list_field(*doc, key@, seq![p.x, p.y, p.z]),
            Err(e) => e == ConfigError::MissingKey || e == ConfigError::WrongType,
        },
{
    let list = match get_i64_list(doc, key) {
        Ok(l) => l,
        Err(e) => {
            return Err(e);
        },
    };
    if list.len() != 3 {
        return Err(ConfigError::WrongType);
    }
    let p = Vec3 { x: list[0], y: list[1], z: list[2] };
    proof {
        assert(list@ =~= seq![p.x, p.y, p.z]);
    }
    Ok(p)
}

/// Builds a robot geometry descriptor from a JSON document (keyed fields in
/// milliunits). Every key is required; a missing key, a wrongly typed value
/// or an out-of-range value is rejected. A descriptor that comes back `Ok`
/// is well formed, and each of its fields equals the document's value under
/// that field's key; a syntax error comes back as `Parse`, exactly when the
/// text does not parse, and the other errors name their defect.
#[verifier::rlimit(100)]
pub fn load_geom(config_text: &str) -> (r: Result<BotGeomData, ConfigError>)
    ensures
        match r {
            Ok(g) => spec_parsed(config_text@) matches Some(doc) && spec_geom_matches(doc, g)
                && g.wf(),
            Err(e) => true,
        },
        r == Err::<BotGeomData, ConfigError>(ConfigError::Parse) <==> spec_parsed(config_text@)
            is None,
{
    let doc = match parse_json(config_text) {
        Ok(v) => v,
        Err(_) => {
            return Err(ConfigError::Parse);
        },
    };
    let n_wheels_raw = get_i64(&doc, "n_wheels")?;
    if n_wheels_raw < 0 || n_wheels_raw > 255 {
        return Err(ConfigError::OutOfRange);
    }
    let g = BotGeomData {
        bot_radius: get_i64(&doc, "bot_radius")?,
        bot_mass: get_i64(&doc, "bot_mass")?,
        bot_front_insink_depth: get_i64(&doc, "bot_front_insink_depth")?,
        bot_front_insink_inner_width: get_i64(&doc, "bot_front_insink_inner_width")?,
        bot_front_insink_outer_width: get_i64(&doc, "bot_front_insink_outer_width")?,
        bot_hitbox: get_i64_list(&doc, "bot_hitbox")?,
        wheel_fric_s: get_i64(&doc, "wheel_fric_s")?,
        wheel_fric_k: get_i64(&doc, "wheel_fric_k")?,
        wheel_max_speed: get_i64(&doc, "wheel_max_speed")?,
        wheel_max_torque: get_i64(&doc, "wheel_max_torque")?,
        small_wheel_fric_s: get_i64(&doc, "small_wheel_fric_s")?,
        small_wheel_fric_k: get_i64(&doc, "small_wheel_fric_k")?,
        n_wheels: n_wheels_raw as u8,
        have_dribbler: get_bool(&doc, "have_dribbler")?,
        dribbler_edge_radius: get_i64(&doc, "dribbler_edge_radius")?,
        dribbler_middle_radius: get_i64(&doc, "dribbler_middle_radius")?,
        dribbler_hitbox: get_i64_list(&doc, "dribbler_hitbox")?,
        dribbler_centering_tendency: get_i64(&doc, "dribbler_centering_tendency")?,
        dribbler_width: get_i64(&doc, "dribbler_width")?,
        dribbler_max_speed: get_i64(&doc, "dribbler_max_speed")?,
        dribbler_down_pos: get_vec3(&doc, "dribbler_down_pos")?,
        dribbler_pivot_pos: get_vec3(&doc, "dribbler_pivot_pos")?,
        dribbler_max_pivot: get_i64(&doc, "dribbler_max_pivot")?,
        have_kicker: get_bool(&doc, "have_kicker")?,
        kicker_max_impulse: get_i64(&doc, "kicker_max_impulse")?,
        kicker_min_impulse: get_i64(&doc, "kicker_min_impulse")?,
        kicker_elasticity: get_i64(&doc, "kicker_elasticity")?,
        kicker_uncertainty: get_i64(&doc, "kicker_uncertainty")?,
        ball_mass: get_i64(&doc, "ball_mass")?,
        ball_radius: get_i64(&doc, "ball_radius")?,
        ball_hitbox: get_i64(&doc, "ball_hitbox")?,
        ball_elasticity: get_i64(&doc, "ball_elasticity")?,
        ball_fric_s: get_i64(&doc, "ball_fric_s")?,
        ball_fric_k: get_i64(&doc, "ball_fric_k")?,
        field_half_length: get_i64(&doc, "field_half_length")?,
        field_half_width: get_i64(&doc, "field_half_width")?,
        goal_half_width: get_i64(&doc, "goal_half_width")?,
    };
    if !g.validate() {
        return Err(ConfigError::OutOfRange);
    }
    Ok(g)
}

/// Every entry of `v` lies in `[lo, hi]`.
pub fn all_in_range(v: &Vec<i64>, lo: i64, hi: i64) -> (r: bool)
    ensures
        r == forall|i: int| 0 <= i < v@.len() ==> lo <= #[trigger] v@[i] <= hi,
{
    let mut i: usize = 0;
    while i < v.len()
        invariant
            0 <= i <= v@.len(),
            forall|j: int| 0 <= j < i ==> lo <= #[trigger] v@[j] <= hi,
        decreases v@.len() - i,
    {
        if v[i] < lo || v[i] > hi {
            return false;
        }
        i = i + 1;
    }
    true
}

impl BotGeomData {
    /// Decides well-formedness at run time; loading rejects a descriptor for
    /// which this returns false.
    pub fn validate(&self) -> (r: bool)
        ensures
            r == self.wf(),
    {
        let mut ok: bool = true;
        ok = ok && 1 <= self.bot_radius && self.bot_radius <= GEOM_MAX;
        ok = ok && 1 <= self.bot_mass && self.bot_mass <= GEOM_MAX;
        ok = ok && 0 <= self.bot_front_insink_depth && self.bot_front_insink_depth <= GEOM_MAX;
        ok = ok && 0 <= self.bot_front_insink_inner_width && self.bot_front_insink_inner_width <= GEOM_MAX;
        ok = ok && 0 <= self.bot_front_insink_outer_width && self.bot_front_insink_outer_width <= GEOM_MAX;
        ok = ok && self.bot_hitbox.len() <= 32 && all_in_range(&self.bot_hitbox, -GEOM_MAX, GEOM_MAX);
        ok = ok && 0 <= self.wheel_fric_s && self.wheel_fric_s <= GEOM_MAX;
        ok = ok && 0 <= self.wheel_fric_k && self.wheel_fric_k <= GEOM_MAX;
        ok = ok && 0 <= self.wheel_max_speed && self.wheel_max_speed <= GEOM_MAX;
        ok = ok && 0 <= self.wheel_max_torque && self.wheel_max_torque <= GEOM_MAX;
        ok = ok && 0 <= self.small_wheel_fric_s && self.small_wheel_fric_s <= GEOM_MAX;
        ok = ok && 0 <= self.small_wheel_fric_k && self.small_wheel_fric_k <= GEOM_MAX;
        ok = ok && 1 <= self.n_wheels && (self.n_wheels as usize) <= MAX_WHEELS;
        ok = ok && 0 <= self.dribbler_edge_radius && self.dribbler_edge_radius <= GEOM_MAX;
        ok = ok && 0 <= self.dribbler_middle_radius && self.dribbler_middle_radius <= GEOM_MAX;
        ok = ok && self.dribbler_hitbox.len() <= 8 && all_in_range(&self.dribbler_hitbox, -GEOM_MAX, GEOM_MAX);
        ok = ok && 0 <= self.dribbler_centering_tendency && self.dribbler_centering_tendency <= GEOM_MAX;
        ok = ok && 0 <= self.dribbler_width && self.dribbler_width <= GEOM_MAX;
        ok = ok && 0 <= self.dribbler_max_speed && self.dribbler_max_speed <= GEOM_MAX;
        ok = ok && -GEOM_MAX <= self.dribbler_down_pos.x && self.dribbler_down_pos.x <= GEOM_MAX;
        ok = ok && -GEOM_MAX <= self.dribbler_down_pos.y && self.dribbler_down_pos.y <= GEOM_MAX;
        ok = ok && -GEOM_MAX <= self.dribbler_down_pos.z && self.dribbler_down_pos.z <= GEOM_MAX;
        ok = ok && -GEOM_MAX <= self.dribbler_pivot_pos.x && self.dribbler_pivot_pos.x <= GEOM_MAX;
        ok = ok && -GEOM_MAX <= self.dribbler_pivot_pos.y && self.dribbler_pivot_pos.y <= GEOM_MAX;
        ok = ok && -GEOM_MAX <= self.dribbler_pivot_pos.z && self.dribbler_pivot_pos.z <= GEOM_MAX;
        ok = ok && 0 <= self.dribbler_max_pivot && self.dribbler_max_pivot <= GEOM_MAX;
        ok = ok && 0 <= self.kicker_min_impulse && self.kicker_min_impulse <= self.kicker_max_impulse
            && self.kicker_max_impulse <= GEOM_MAX;
        ok = ok && 0 <= self.kicker_elasticity && self.kicker_elasticity <= GEOM_MAX;
        ok = ok && 0 <= self.kicker_uncertainty && self.kicker_uncertainty <= GEOM_MAX;
        ok = ok && 1 <= self.ball_mass && self.ball_mass <= GEOM_MAX;
        ok = ok && 1 <= self.ball_radius && self.ball_radius <= GEOM_MAX;
        ok = ok && 0 <= self.ball_hitbox && self.ball_hitbox <= GEOM_MAX;
        ok = ok && 0 <= self.ball_elasticity && self.ball_elasticity <= GEOM_MAX;
        ok = ok && 0 <= self.ball_fric_s && self.ball_fric_s <= GEOM_MAX;
        ok = ok && 0 <= self.ball_fric_k && self.ball_fric_k <= GEOM_MAX;
        ok = ok && 1 <= self.field_half_length && self.field_half_length <= GEOM_MAX;
        ok = ok && 1 <= self.field_half_width && self.field_half_width <= GEOM_MAX;
        ok = ok && 1 <= self.goal_half_width && self.goal_half_width <= self.field_half_width;
        ok
    }
}

} // verus!

//! The engine's global tuning constants, one `key value` pair per line.

use vstd::prelude::*;

use crate::common::file::table_lines;
use crate::text::{content_of, same_bytes, scrub_bytes, spec_i32, split_lines, split_words, to_i32, trimmed, views,
    words};

verus! {

/// The number of values the named fields take before the rest.
pub const NAMED_VALUES: usize = 81;

/// Represents an error encountered while parsing the global parameters.
#[derive(Debug, Clone, PartialEq, Eq)]
pub enum ParamError {
    /// The payload held no `key value` pair.
    EmptyFile,
}

impl ParamError {
    /// A human-readable description of the error.
    #[verifier::allow_in_spec]
    pub fn message(&self) -> &'static str
        returns
            (match self {
                ParamError::EmptyFile => "The provided file bytes contained no valid param data.",
            }),
    {
        match self {
            ParamError::EmptyFile => "The provided file bytes contained no valid param data.",
        }
    }
}

/// The engine's global parameters.
///
/// Each field holds the value its key is last given in the file, or zero
/// where the file never names the key; `rest` holds every value past the
/// first eighty-one pairs, in file order.
#[derive(Debug, Clone, Default, PartialEq, Eq)]
pub struct Param {
    pub unknown_1: i32,
    pub unknown_2: i32,
    pub unknown_3: i32,
    pub unknown_4: i32,
    pub unknown_5: i32,
    pub unknown_6: i32,
    pub unknown_7: i32,
    pub unknown_8: i32,
    pub unknown_9: i32,
    pub unknown_10: i32,
    pub unknown_11: i32,
    pub unknown_12: i32,
    pub unknown_13: i32,
    pub unknown_14: i32,
    pub unknown_15: i32,
    pub unknown_16: i32,
    pub unknown_17: i32,
    pub hold_cat_details_time: i32,
    pub time_until_death_surge: i32,
    pub behemoth_slayer_attack_multiplier: i32,
    pub behemoth_slayer_defense_multiplier: i32,
    pub unknown_22: i32,
    pub logo_superfeline_roll_timer: i32,
    pub logo_superfeline_chance_success: i32,
    pub logo_superfeline_failure_increase: i32,
    pub unknown_26: i32,
    pub unknown_27: i32,
    pub unknown_28: i32,
    pub unknown_29: i32,
    pub unknown_30: i32,
    pub unknown_31: i32,
    pub unknown_32: i32,
    pub unknown_33: i32,
    pub volume_setting_percent_small: i32,
    pub volume_setting_percent_medium: i32,
    pub volume_setting_percent_large: i32,
    pub spirit_position_offset: i32,
    pub sage_type_resist_weaken: i32,
    pub sage_type_resist_freeze: i32,
    pub sage_type_resist_slow: i32,
    pub sage_type_resist_curse: i32,
    pub sage_type_resist_knockback: i32,
    pub sage_slayer_resist_weaken: i32,
    pub sage_slayer_resist_freeze: i32,
    pub sage_slayer_resist_slow: i32,
    pub sage_slayer_resist_curse: i32,
    pub sage_slayer_resist_other: i32,
    pub sage_slayer_resist_warp: i32,
    pub sage_slayer_attack_multiplier: i32,
    pub sage_slayer_defense_multiplier: i32,
    pub metal_killer_hitpoint_behavior: i32,
    pub unknown_52: i32,
    pub unknown_53: i32,
    pub story_sequence_hold_speed: i32,
    pub explosion_start_time: i32,
    pub explosion_hitbox_duration: i32,
    pub explosion_delay_before_deletion: i32,
    pub explosion_delay_until_spike: i32,
    pub explosion_big_width: i32,
    pub explosion_medium_width: i32,
    pub explosion_small_width: i32,
    pub explosion_big_damage_multiplier: i32,
    pub explosion_medium_damage_multiplier: i32,
    pub explosion_small_damage_multiplier: i32,
    pub unknown_65: i32,
    pub unknown_66: i32,
    pub unknown_67: i32,
    pub unknown_68: i32,
    pub unknown_69: i32,
    pub unknown_70: i32,
    pub unknown_71: i32,
    pub unknown_72: i32,
    pub unknown_73: i32,
    pub unknown_74: i32,
    pub unknown_75: i32,
    pub unknown_76: i32,
    pub unknown_77: i32,
    pub unknown_78: i32,
    pub comeback_treasure_festival_days: i32,
    pub unknown_80: i32,
    pub unknown_81: i32,
    pub rest: Vec<i32>,
}

/// The abstract value of the parameters.
pub struct ParamView {
    pub unknown_1: i32,
    pub unknown_2: i32,
    pub unknown_3: i32,
    pub unknown_4: i32,
    pub unknown_5: i32,
    pub unknown_6: i32,
    pub unknown_7: i32,
    pub unknown_8: i32,
    pub unknown_9: i32,
    pub unknown_10: i32,
    pub unknown_11: i32,
    pub unknown_12: i32,
    pub unknown_13: i32,
    pub unknown_14: i32,
    pub unknown_15: i32,
    pub unknown_16: i32,
    pub unknown_17: i32,
    pub hold_cat_details_time: i32,
    pub time_until_death_surge: i32,
    pub behemoth_slayer_attack_multiplier: i32,
    pub behemoth_slayer_defense_multiplier: i32,
    pub unknown_22: i32,
    pub logo_superfeline_roll_timer: i32,
    pub logo_superfeline_chance_success: i32,
    pub logo_superfeline_failure_increase: i32,
    pub unknown_26: i32,
    pub unknown_27: i32,
    pub unknown_28: i32,
    pub unknown_29: i32,
    pub unknown_30: i32,
    pub unknown_31: i32,
    pub unknown_32: i32,
    pub unknown_33: i32,
    pub volume_setting_percent_small: i32,
    pub volume_setting_percent_medium: i32,
    pub volume_setting_percent_large: i32,
    pub spirit_position_offset: i32,
    pub sage_type_resist_weaken: i32,
    pub sage_type_resist_freeze: i32,
    pub sage_type_resist_slow: i32,
    pub sage_type_resist_curse: i32,
    pub sage_type_resist_knockback: i32,
    pub sage_slayer_resist_weaken: i32,
    pub sage_slayer_resist_freeze: i32,
    pub sage_slayer_resist_slow: i32,
    pub sage_slayer_resist_curse: i32,
    pub sage_slayer_resist_other: i32,
    pub sage_slayer_resist_warp: i32,
    pub sage_slayer_attack_multiplier: i32,
    pub sage_slayer_defense_multiplier: i32,
    pub metal_killer_hitpoint_behavior: i32,
    pub unknown_52: i32,
    pub unknown_53: i32,
    pub story_sequence_hold_speed: i32,
    pub explosion_start_time: i32,
    pub explosion_hitbox_duration: i32,
    pub explosion_delay_before_deletion: i32,
    pub explosion_delay_until_spike: i32,
    pub explosion_big_width: i32,
    pub explosion_medium_width: i32,
    pub explosion_small_width: i32,
    pub explosion_big_damage_multiplier: i32,
    pub explosion_medium_damage_multiplier: i32,
    pub explosion_small_damage_multiplier: i32,
    pub unknown_65: i32,
    pub unknown_66: i32,
    pub unknown_67: i32,
    pub unknown_68: i32,
    pub unknown_69: i32,
    pub unknown_70: i32,
    pub unknown_71: i32,
    pub unknown_72: i32,
    pub unknown_73: i32,
    pub unknown_74: i32,
    pub unknown_75: i32,
    pub unknown_76: i32,
    pub unknown_77: i32,
    pub unknown_78: i32,
    pub comeback_treasure_festival_days: i32,
    pub unknown_80: i32,
    pub unknown_81: i32,
    pub rest: Seq<i32>,
}

impl View for Param {
    type V = ParamView;

    open spec fn view(&self) -> ParamView {
        ParamView {
            unknown_1: self.unknown_1,
            unknown_2: self.unknown_2,
            unknown_3: self.unknown_3,
            unknown_4: self.unknown_4,
            unknown_5: self.unknown_5,
            unknown_6: self.unknown_6,
            unknown_7: self.unknown_7,
            unknown_8: self.unknown_8,
            unknown_9: self.unknown_9,
            unknown_10: self.unknown_10,
            unknown_11: self.unknown_11,
            unknown_12: self.unknown_12,
            unknown_13: self.unknown_13,
            unknown_14: self.unknown_14,
            unknown_15: self.unknown_15,
            unknown_16: self.unknown_16,
            unknown_17: self.unknown_17,
            hold_cat_details_time: self.hold_cat_details_time,
            time_until_death_surge: self.time_until_death_surge,
            behemoth_slayer_attack_multiplier: self.behemoth_slayer_attack_multiplier,
            behemoth_slayer_defense_multiplier: self.behemoth_slayer_defense_multiplier,
            unknown_22: self.unknown_22,
            logo_superfeline_roll_timer: self.logo_superfeline_roll_timer,
            logo_superfeline_chance_success: self.logo_superfeline_chance_success,
            logo_superfeline_failure_increase: self.logo_superfeline_failure_increase,
            unknown_26: self.unknown_26,
            unknown_27: self.unknown_27,
            unknown_28: self.unknown_28,
            unknown_29: self.unknown_29,
            unknown_30: self.unknown_30,
            unknown_31: self.unknown_31,
            unknown_32: self.unknown_32,
            unknown_33: self.unknown_33,
            volume_setting_percent_small: self.volume_setting_percent_small,
            volume_setting_percent_medium: self.volume_setting_percent_medium,
            volume_setting_percent_large: self.volume_setting_percent_large,
            spirit_position_offset: self.spirit_position_offset,
            sage_type_resist_weaken: self.sage_type_resist_weaken,
            sage_type_resist_freeze: self.sage_type_resist_freeze,
            sage_type_resist_slow: self.sage_type_resist_slow,
            sage_type_resist_curse: self.sage_type_resist_curse,
            sage_type_resist_knockback: self.sage_type_resist_knockback,
            sage_slayer_resist_weaken: self.sage_slayer_resist_weaken,
            sage_slayer_resist_freeze: self.sage_slayer_resist_freeze,
            sage_slayer_resist_slow: self.sage_slayer_resist_slow,
            sage_slayer_resist_curse: self.sage_slayer_resist_curse,
            sage_slayer_resist_other: self.sage_slayer_resist_other,
            sage_slayer_resist_warp: self.sage_slayer_resist_warp,
            sage_slayer_attack_multiplier: self.sage_slayer_attack_multiplier,
            sage_slayer_defense_multiplier: self.sage_slayer_defense_multiplier,
            metal_killer_hitpoint_behavior: self.metal_killer_hitpoint_behavior,
            unknown_52: self.unknown_52,
            unknown_53: self.unknown_53,
            story_sequence_hold_speed: self.story_sequence_hold_speed,
            explosion_start_time: self.explosion_start_time,
            explosion_hitbox_duration: self.explosion_hitbox_duration,
            explosion_delay_before_deletion: self.explosion_delay_before_deletion,
            explosion_delay_until_spike: self.explosion_delay_until_spike,
            explosion_big_width: self.explosion_big_width,
            explosion_medium_width: self.explosion_medium_width,
            explosion_small_width: self.explosion_small_width,
            explosion_big_damage_multiplier: self.explosion_big_damage_multiplier,
            explosion_medium_damage_multiplier: self.explosion_medium_damage_multiplier,
            explosion_small_damage_multiplier: self.explosion_small_damage_multiplier,
            unknown_65: self.unknown_65,
            unknown_66: self.unknown_66,
            unknown_67: self.unknown_67,
            unknown_68: self.unknown_68,
            unknown_69: self.unknown_69,
            unknown_70: self.unknown_70,
            unknown_71: self.unknown_71,
            unknown_72: self.unknown_72,
            unknown_73: self.unknown_73,
            unknown_74: self.unknown_74,
            unknown_75: self.unknown_75,
            unknown_76: self.unknown_76,
            unknown_77: self.unknown_77,
            unknown_78: self.unknown_78,
            comeback_treasure_festival_days: self.comeback_treasure_festival_days,
            unknown_80: self.unknown_80,
            unknown_81: self.unknown_81,
            rest: self.rest@,
        }
    }
}

/// The key `slot_font_size`.
pub open spec fn key_unknown_1() -> Seq<u8> { seq![115u8, 108, 111, 116, 95, 102, 111, 110, 116, 95, 115, 105, 122, 101] }

/// The key `slot_bg_y`.
pub open spec fn key_unknown_2() -> Seq<u8> { seq![115u8, 108, 111, 116, 95, 98, 103, 95, 121] }

/// The key `slot_name_margin_top`.
pub open spec fn key_unknown_3() -> Seq<u8> { seq![115u8, 108, 111, 116, 95, 110, 97, 109, 101, 95, 109, 97, 114, 103, 105, 110, 95, 116, 111, 112] }

/// The key `slot_name_margin_left`.
pub open spec fn key_unknown_4() -> Seq<u8> { seq![115u8, 108, 111, 116, 95, 110, 97, 109, 101, 95, 109, 97, 114, 103, 105, 110, 95, 108, 101, 102, 116] }

/// The key `slot_page_y_offset`.
pub open spec fn key_unknown_5() -> Seq<u8> { seq![115u8, 108, 111, 116, 95, 112, 97, 103, 101, 95, 121, 95, 111, 102, 102, 115, 101, 116] }

/// The key `slot_font_size2`.
pub open spec fn key_unknown_6() -> Seq<u8> { seq![115u8, 108, 111, 116, 95, 102, 111, 110, 116, 95, 115, 105, 122, 101, 50] }

/// The key `slot_name_margin_top2`.
pub open spec fn key_unknown_7() -> Seq<u8> { seq![115u8, 108, 111, 116, 95, 110, 97, 109, 101, 95, 109, 97, 114, 103, 105, 110, 95, 116, 111, 112, 50] }

/// The key `slot_name_margin_left2`.
pub open spec fn key_unknown_8() -> Seq<u8> { seq![115u8, 108, 111, 116, 95, 110, 97, 109, 101, 95, 109, 97, 114, 103, 105, 110, 95, 108, 101, 102, 116, 50] }

/// The key `battle_wave_s_st`.
pub open spec fn key_unknown_9() -> Seq<u8> { seq![98u8, 97, 116, 116, 108, 101, 95, 119, 97, 118, 101, 95, 115, 95, 115, 116] }

/// The key `battle_wave_s_inter`.
pub open spec fn key_unknown_10() -> Seq<u8> { seq![98u8, 97, 116, 116, 108, 101, 95, 119, 97, 118, 101, 95, 115, 95, 105, 110, 116, 101, 114] }

/// The key `battle_wave_s_frame1`.
pub open spec fn key_unknown_11() -> Seq<u8> { seq![98u8, 97, 116, 116, 108, 101, 95, 119, 97, 118, 101, 95, 115, 95, 102, 114, 97, 109, 101, 49] }

/// The key `battle_wave_s_frame2`.
pub open spec fn key_unknown_12() -> Seq<u8> { seq![98u8, 97, 116, 116, 108, 101, 95, 119, 97, 118, 101, 95, 115, 95, 102, 114, 97, 109, 101, 50] }

/// The key `battle_slot_2lines_line`.
pub open spec fn key_unknown_13() -> Seq<u8> { seq![98u8, 97, 116, 116, 108, 101, 95, 115, 108, 111, 116, 95, 50, 108, 105, 110, 101, 115, 95, 108, 105, 110, 101] }

/// The key `battle_slot_2lines_y`.
pub open spec fn key_unknown_14() -> Seq<u8> { seq![98u8, 97, 116, 116, 108, 101, 95, 115, 108, 111, 116, 95, 50, 108, 105, 110, 101, 115, 95, 121] }

/// The key `battle_zoom_y`.
pub open spec fn key_unknown_15() -> Seq<u8> { seq![98u8, 97, 116, 116, 108, 101, 95, 122, 111, 111, 109, 95, 121] }

/// The key `battle_zoom_slot_y`.
pub open spec fn key_unknown_16() -> Seq<u8> { seq![98u8, 97, 116, 116, 108, 101, 95, 122, 111, 111, 109, 95, 115, 108, 111, 116, 95, 121] }

/// The key `battle_zoom_castle_y`.
pub open spec fn key_unknown_17() -> Seq<u8> { seq![98u8, 97, 116, 116, 108, 101, 95, 122, 111, 111, 109, 95, 99, 97, 115, 116, 108, 101, 95, 121] }

/// The key `battle_slot_desc_wait`.
pub open spec fn key_hold_cat_details_time() -> Seq<u8> { seq![98u8, 97, 116, 116, 108, 101, 95, 115, 108, 111, 116, 95, 100, 101, 115, 99, 95, 119, 97, 105, 116] }

/// The key `battle_death_volcano_time`.
pub open spec fn key_time_until_death_surge() -> Seq<u8> { seq![98u8, 97, 116, 116, 108, 101, 95, 100, 101, 97, 116, 104, 95, 118, 111, 108, 99, 97, 110, 111, 95, 116, 105, 109, 101] }

/// The key `battle_super_beast_hunter`.
pub open spec fn key_behemoth_slayer_attack_multiplier() -> Seq<u8> { seq![98u8, 97, 116, 116, 108, 101, 95, 115, 117, 112, 101, 114, 95, 98, 101, 97, 115, 116, 95, 104, 117, 110, 116, 101, 114] }

/// The key `battle_super_beast_hunter_df`.
pub open spec fn key_behemoth_slayer_defense_multiplier() -> Seq<u8> { seq![98u8, 97, 116, 116, 108, 101, 95, 115, 117, 112, 101, 114, 95, 98, 101, 97, 115, 116, 95, 104, 117, 110, 116, 101, 114, 95, 100, 102] }

/// The key `boost_speed`.
pub open spec fn key_unknown_22() -> Seq<u8> { seq![98u8, 111, 111, 115, 116, 95, 115, 112, 101, 101, 100] }

/// The key `logo_gimmick_sec`.
pub open spec fn key_logo_superfeline_roll_timer() -> Seq<u8> { seq![108u8, 111, 103, 111, 95, 103, 105, 109, 109, 105, 99, 107, 95, 115, 101, 99] }

/// The key `logo_gimmick_probability`.
pub open spec fn key_logo_superfeline_chance_success() -> Seq<u8> { seq![108u8, 111, 103, 111, 95, 103, 105, 109, 109, 105, 99, 107, 95, 112, 114, 111, 98, 97, 98, 105, 108, 105, 116, 121] }

/// The key `logo_gimmick_increase`.
pub open spec fn key_logo_superfeline_failure_increase() -> Seq<u8> { seq![108u8, 111, 103, 111, 95, 103, 105, 109, 109, 105, 99, 107, 95, 105, 110, 99, 114, 101, 97, 115, 101] }

/// The key `battle_demon_summon_frame`.
pub open spec fn key_unknown_26() -> Seq<u8> { seq![98u8, 97, 116, 116, 108, 101, 95, 100, 101, 109, 111, 110, 95, 115, 117, 109, 109, 111, 110, 95, 102, 114, 97, 109, 101] }

/// The key `battle_demon_summon_se_frame`.
pub open spec fn key_unknown_27() -> Seq<u8> { seq![98u8, 97, 116, 116, 108, 101, 95, 100, 101, 109, 111, 110, 95, 115, 117, 109, 109, 111, 110, 95, 115, 101, 95, 102, 114, 97, 109, 101] }

/// The key `battle_castle_x0`.
pub open spec fn key_unknown_28() -> Seq<u8> { seq![98u8, 97, 116, 116, 108, 101, 95, 99, 97, 115, 116, 108, 101, 95, 120, 48] }

/// The key `battle_castle_y0`.
pub open spec fn key_unknown_29() -> Seq<u8> { seq![98u8, 97, 116, 116, 108, 101, 95, 99, 97, 115, 116, 108, 101, 95, 121, 48] }

/// The key `battle_castle_x1`.
pub open spec fn key_unknown_30() -> Seq<u8> { seq![98u8, 97, 116, 116, 108, 101, 95, 99, 97, 115, 116, 108, 101, 95, 120, 49] }

/// The key `battle_castle_y1`.
pub open spec fn key_unknown_31() -> Seq<u8> { seq![98u8, 97, 116, 116, 108, 101, 95, 99, 97, 115, 116, 108, 101, 95, 121, 49] }

/// The key `battle_castle_x2`.
pub open spec fn key_unknown_32() -> Seq<u8> { seq![98u8, 97, 116, 116, 108, 101, 95, 99, 97, 115, 116, 108, 101, 95, 120, 50] }

/// The key `battle_castle_y2`.
pub open spec fn key_unknown_33() -> Seq<u8> { seq![98u8, 97, 116, 116, 108, 101, 95, 99, 97, 115, 116, 108, 101, 95, 121, 50] }

/// The key `volume_percentage_s`.
pub open spec fn key_volume_setting_percent_small() -> Seq<u8> { seq![118u8, 111, 108, 117, 109, 101, 95, 112, 101, 114, 99, 101, 110, 116, 97, 103, 101, 95, 115] }

/// The key `volume_percentage_m`.
pub open spec fn key_volume_setting_percent_medium() -> Seq<u8> { seq![118u8, 111, 108, 117, 109, 101, 95, 112, 101, 114, 99, 101, 110, 116, 97, 103, 101, 95, 109] }

/// The key `volume_percentage_l`.
pub open spec fn key_volume_setting_percent_large() -> Seq<u8> { seq![118u8, 111, 108, 117, 109, 101, 95, 112, 101, 114, 99, 101, 110, 116, 97, 103, 101, 95, 108] }

/// The key `summon_position`.
pub open spec fn key_spirit_position_offset() -> Seq<u8> { seq![115u8, 117, 109, 109, 111, 110, 95, 112, 111, 115, 105, 116, 105, 111, 110] }

/// The key `battle_super_sage_weaken`.
pub open spec fn key_sage_type_resist_weaken() -> Seq<u8> { seq![98u8, 97, 116, 116, 108, 101, 95, 115, 117, 112, 101, 114, 95, 115, 97, 103, 101, 95, 119, 101, 97, 107, 101, 110] }

/// The key `battle_super_sage_freeze`.
pub open spec fn key_sage_type_resist_freeze() -> Seq<u8> { seq![98u8, 97, 116, 116, 108, 101, 95, 115, 117, 112, 101, 114, 95, 115, 97, 103, 101, 95, 102, 114, 101, 101, 122, 101] }

/// The key `battle_super_sage_slow`.
pub open spec fn key_sage_type_resist_slow() -> Seq<u8> { seq![98u8, 97, 116, 116, 108, 101, 95, 115, 117, 112, 101, 114, 95, 115, 97, 103, 101, 95, 115, 108, 111, 119] }

/// The key `battle_super_sage_curse`.
pub open spec fn key_sage_type_resist_curse() -> Seq<u8> { seq![98u8, 97, 116, 116, 108, 101, 95, 115, 117, 112, 101, 114, 95, 115, 97, 103, 101, 95, 99, 117, 114, 115, 101] }

/// The key `battle_super_sage_knockback`.
pub open spec fn key_sage_type_resist_knockback() -> Seq<u8> { seq![98u8, 97, 116, 116, 108, 101, 95, 115, 117, 112, 101, 114, 95, 115, 97, 103, 101, 95, 107, 110, 111, 99, 107, 98, 97, 99, 107] }

/// The key `battle_super_sage_hunter_weaken`.
pub open spec fn key_sage_slayer_resist_weaken() -> Seq<u8> { seq![98u8, 97, 116, 116, 108, 101, 95, 115, 117, 112, 101, 114, 95, 115, 97, 103, 101, 95, 104, 117, 110, 116, 101, 114, 95, 119, 101, 97, 107, 101, 110] }

/// The key `battle_super_sage_hunter_freeze`.
pub open spec fn key_sage_slayer_resist_freeze() -> Seq<u8> { seq![98u8, 97, 116, 116, 108, 101, 95, 115, 117, 112, 101, 114, 95, 115, 97, 103, 101, 95, 104, 117, 110, 116, 101, 114, 95, 102, 114, 101, 101, 122, 101] }

/// The key `battle_super_sage_hunter_slow`.
pub open spec fn key_sage_slayer_resist_slow() -> Seq<u8> { seq![98u8, 97, 116, 116, 108, 101, 95, 115, 117, 112, 101, 114, 95, 115, 97, 103, 101, 95, 104, 117, 110, 116, 101, 114, 95, 115, 108, 111, 119] }

/// The key `battle_super_sage_hunter_curse`.
pub open spec fn key_sage_slayer_resist_curse() -> Seq<u8> { seq![98u8, 97, 116, 116, 108, 101, 95, 115, 117, 112, 101, 114, 95, 115, 97, 103, 101, 95, 104, 117, 110, 116, 101, 114, 95, 99, 117, 114, 115, 101] }

/// The key `battle_super_sage_hunter_knockback`.
pub open spec fn key_sage_slayer_resist_other() -> Seq<u8> { seq![98u8, 97, 116, 116, 108, 101, 95, 115, 117, 112, 101, 114, 95, 115, 97, 103, 101, 95, 104, 117, 110, 116, 101, 114, 95, 107, 110, 111, 99, 107, 98, 97, 99, 107] }

/// The key `battle_super_sage_hunter_warp`.
pub open spec fn key_sage_slayer_resist_warp() -> Seq<u8> { seq![98u8, 97, 116, 116, 108, 101, 95, 115, 117, 112, 101, 114, 95, 115, 97, 103, 101, 95, 104, 117, 110, 116, 101, 114, 95, 119, 97, 114, 112] }

/// The key `battle_super_sage_hunter_damage1`.
pub open spec fn key_sage_slayer_attack_multiplier() -> Seq<u8> { seq![98u8, 97, 116, 116, 108, 101, 95, 115, 117, 112, 101, 114, 95, 115, 97, 103, 101, 95, 104, 117, 110, 116, 101, 114, 95, 100, 97, 109, 97, 103, 101, 49] }

/// The key `battle_super_sage_hunter_damage2`.
pub open spec fn key_sage_slayer_defense_multiplier() -> Seq<u8> { seq![98u8, 97, 116, 116, 108, 101, 95, 115, 117, 112, 101, 114, 95, 115, 97, 103, 101, 95, 104, 117, 110, 116, 101, 114, 95, 100, 97, 109, 97, 103, 101, 50] }

/// The key `battle_metal_killer_hp_type`.
pub open spec fn key_metal_killer_hitpoint_behavior() -> Seq<u8> { seq![98u8, 97, 116, 116, 108, 101, 95, 109, 101, 116, 97, 108, 95, 107, 105, 108, 108, 101, 114, 95, 104, 112, 95, 116, 121, 112, 101] }

/// The key `catbase_banner1`.
pub open spec fn key_unknown_52() -> Seq<u8> { seq![99u8, 97, 116, 98, 97, 115, 101, 95, 98, 97, 110, 110, 101, 114, 49] }

/// The key `catbase_banner2`.
pub open spec fn key_unknown_53() -> Seq<u8> { seq![99u8, 97, 116, 98, 97, 115, 101, 95, 98, 97, 110, 110, 101, 114, 50] }

/// The key `story_fast_forward_speed`.
pub open spec fn key_story_sequence_hold_speed() -> Seq<u8> { seq![115u8, 116, 111, 114, 121, 95, 102, 97, 115, 116, 95, 102, 111, 114, 119, 97, 114, 100, 95, 115, 112, 101, 101, 100] }

/// The key `battle_explosion_frame1`.
pub open spec fn key_explosion_start_time() -> Seq<u8> { seq![98u8, 97, 116, 116, 108, 101, 95, 101, 120, 112, 108, 111, 115, 105, 111, 110, 95, 102, 114, 97, 109, 101, 49] }

/// The key `battle_explosion_frame2`.
pub open spec fn key_explosion_hitbox_duration() -> Seq<u8> { seq![98u8, 97, 116, 116, 108, 101, 95, 101, 120, 112, 108, 111, 115, 105, 111, 110, 95, 102, 114, 97, 109, 101, 50] }

/// The key `battle_explosion_frame3`.
pub open spec fn key_explosion_delay_before_deletion() -> Seq<u8> { seq![98u8, 97, 116, 116, 108, 101, 95, 101, 120, 112, 108, 111, 115, 105, 111, 110, 95, 102, 114, 97, 109, 101, 51] }

/// The key `battle_explosion_frame4`.
pub open spec fn key_explosion_delay_until_spike() -> Seq<u8> { seq![98u8, 97, 116, 116, 108, 101, 95, 101, 120, 112, 108, 111, 115, 105, 111, 110, 95, 102, 114, 97, 109, 101, 52] }

/// The key `battle_explosion_width1`.
pub open spec fn key_explosion_big_width() -> Seq<u8> { seq![98u8, 97, 116, 116, 108, 101, 95, 101, 120, 112, 108, 111, 115, 105, 111, 110, 95, 119, 105, 100, 116, 104, 49] }

/// The key `battle_explosion_width2`.
pub open spec fn key_explosion_medium_width() -> Seq<u8> { seq![98u8, 97, 116, 116, 108, 101, 95, 101, 120, 112, 108, 111, 115, 105, 111, 110, 95, 119, 105, 100, 116, 104, 50] }

/// The key `battle_explosion_width3`.
pub open spec fn key_explosion_small_width() -> Seq<u8> { seq![98u8, 97, 116, 116, 108, 101, 95, 101, 120, 112, 108, 111, 115, 105, 111, 110, 95, 119, 105, 100, 116, 104, 51] }

/// The key `battle_explosion_damage1`.
pub open spec fn key_explosion_big_damage_multiplier() -> Seq<u8> { seq![98u8, 97, 116, 116, 108, 101, 95, 101, 120, 112, 108, 111, 115, 105, 111, 110, 95, 100, 97, 109, 97, 103, 101, 49] }

/// The key `battle_explosion_damage2`.
pub open spec fn key_explosion_medium_damage_multiplier() -> Seq<u8> { seq![98u8, 97, 116, 116, 108, 101, 95, 101, 120, 112, 108, 111, 115, 105, 111, 110, 95, 100, 97, 109, 97, 103, 101, 50] }

/// The key `battle_explosion_damage3`.
pub open spec fn key_explosion_small_damage_multiplier() -> Seq<u8> { seq![98u8, 97, 116, 116, 108, 101, 95, 101, 120, 112, 108, 111, 115, 105, 111, 110, 95, 100, 97, 109, 97, 103, 101, 51] }

/// The key `battle_af_death_volcano_distance`.
pub open spec fn key_unknown_65() -> Seq<u8> { seq![98u8, 97, 116, 116, 108, 101, 95, 97, 102, 95, 100, 101, 97, 116, 104, 95, 118, 111, 108, 99, 97, 110, 111, 95, 100, 105, 115, 116, 97, 110, 99, 101] }

/// The key `battle_af_death_volcano_width`.
pub open spec fn key_unknown_66() -> Seq<u8> { seq![98u8, 97, 116, 116, 108, 101, 95, 97, 102, 95, 100, 101, 97, 116, 104, 95, 118, 111, 108, 99, 97, 110, 111, 95, 119, 105, 100, 116, 104] }

/// The key `battle_af_condition_production_0`.
pub open spec fn key_unknown_67() -> Seq<u8> { seq![98u8, 97, 116, 116, 108, 101, 95, 97, 102, 95, 99, 111, 110, 100, 105, 116, 105, 111, 110, 95, 112, 114, 111, 100, 117, 99, 116, 105, 111, 110, 95, 48] }

/// The key `battle_af_condition_production_1`.
pub open spec fn key_unknown_68() -> Seq<u8> { seq![98u8, 97, 116, 116, 108, 101, 95, 97, 102, 95, 99, 111, 110, 100, 105, 116, 105, 111, 110, 95, 112, 114, 111, 100, 117, 99, 116, 105, 111, 110, 95, 49] }

/// The key `battle_af_condition_production_2`.
pub open spec fn key_unknown_69() -> Seq<u8> { seq![98u8, 97, 116, 116, 108, 101, 95, 97, 102, 95, 99, 111, 110, 100, 105, 116, 105, 111, 110, 95, 112, 114, 111, 100, 117, 99, 116, 105, 111, 110, 95, 50] }

/// The key `battle_af_condition_production_3`.
pub open spec fn key_unknown_70() -> Seq<u8> { seq![98u8, 97, 116, 116, 108, 101, 95, 97, 102, 95, 99, 111, 110, 100, 105, 116, 105, 111, 110, 95, 112, 114, 111, 100, 117, 99, 116, 105, 111, 110, 95, 51] }

/// The key `battle_af_condition_production_4`.
pub open spec fn key_unknown_71() -> Seq<u8> { seq![98u8, 97, 116, 116, 108, 101, 95, 97, 102, 95, 99, 111, 110, 100, 105, 116, 105, 111, 110, 95, 112, 114, 111, 100, 117, 99, 116, 105, 111, 110, 95, 52] }

/// The key `battle_af_condition_production_5`.
pub open spec fn key_unknown_72() -> Seq<u8> { seq![98u8, 97, 116, 116, 108, 101, 95, 97, 102, 95, 99, 111, 110, 100, 105, 116, 105, 111, 110, 95, 112, 114, 111, 100, 117, 99, 116, 105, 111, 110, 95, 53] }

/// The key `battle_af_condition_production_type`.
pub open spec fn key_unknown_73() -> Seq<u8> { seq![98u8, 97, 116, 116, 108, 101, 95, 97, 102, 95, 99, 111, 110, 100, 105, 116, 105, 111, 110, 95, 112, 114, 111, 100, 117, 99, 116, 105, 111, 110, 95, 116, 121, 112, 101] }

/// The key `autoset_level_param`.
pub open spec fn key_unknown_74() -> Seq<u8> { seq![97u8, 117, 116, 111, 115, 101, 116, 95, 108, 101, 118, 101, 108, 95, 112, 97, 114, 97, 109] }

/// The key `autoset_must_param`.
pub open spec fn key_unknown_75() -> Seq<u8> { seq![97u8, 117, 116, 111, 115, 101, 116, 95, 109, 117, 115, 116, 95, 112, 97, 114, 97, 109] }

/// The key `autoset_cut_score_rate`.
pub open spec fn key_unknown_76() -> Seq<u8> { seq![97u8, 117, 116, 111, 115, 101, 116, 95, 99, 117, 116, 95, 115, 99, 111, 114, 101, 95, 114, 97, 116, 101] }

/// The key `autoset_non_target_offset`.
pub open spec fn key_unknown_77() -> Seq<u8> { seq![97u8, 117, 116, 111, 115, 101, 116, 95, 110, 111, 110, 95, 116, 97, 114, 103, 101, 116, 95, 111, 102, 102, 115, 101, 116] }

/// The key `battle_powerup_kill_enemy`.
pub open spec fn key_unknown_78() -> Seq<u8> { seq![98u8, 97, 116, 116, 108, 101, 95, 112, 111, 119, 101, 114, 117, 112, 95, 107, 105, 108, 108, 95, 101, 110, 101, 109, 121] }

/// The key `comeback_treasure_day`.
pub open spec fn key_comeback_treasure_festival_days() -> Seq<u8> { seq![99u8, 111, 109, 101, 98, 97, 99, 107, 95, 116, 114, 101, 97, 115, 117, 114, 101, 95, 100, 97, 121] }

/// The key `update_version_notification_interval`.
pub open spec fn key_unknown_80() -> Seq<u8> { seq![117u8, 112, 100, 97, 116, 101, 95, 118, 101, 114, 115, 105, 111, 110, 95, 110, 111, 116, 105, 102, 105, 99, 97, 116, 105, 111, 110, 95, 105, 110, 116, 101, 114, 118, 97, 108] }

/// The key `battle_sentai_recast`.
pub open spec fn key_unknown_81() -> Seq<u8> { seq![98u8, 97, 116, 116, 108, 101, 95, 115, 101, 110, 116, 97, 105, 95, 114, 101, 99, 97, 115, 116] }

/// The pair a line declares: its first word as the key and its last word as
/// the value, which reads as zero where it is not an integer; none where the
/// line, without its `//` comment, has fewer than two words.
pub open spec fn pair_of(line: Seq<u8>) -> Option<(Seq<u8>, i32)> {
    let w = words(content_of(line));
    if w.len() >= 2 {
        Some((w[0], match spec_i32(w.last()) { Some(v) => v, None => 0 }))
    } else {
        None
    }
}

/// The pairs a file's lines declare, in order.
pub open spec fn pairs_of(lines: Seq<Seq<u8>>) -> Seq<(Seq<u8>, i32)>
    decreases lines.len(),
{
    if lines.len() == 0 {
        Seq::empty()
    } else {
        match pair_of(lines.last()) {
            Some(p) => pairs_of(lines.drop_last()).push(p),
            None => pairs_of(lines.drop_last()),
        }
    }
}

/// The value the last pair for a key gives it, or zero.
pub open spec fn param_value(entries: Seq<(Seq<u8>, i32)>, key: Seq<u8>) -> i32
    decreases entries.len(),
{
    if entries.len() == 0 {
        0
    } else if entries.last().0 == key {
        entries.last().1
    } else {
        param_value(entries.drop_last(), key)
    }
}

/// The parameters a file's pairs set.
pub open spec fn param_of(entries: Seq<(Seq<u8>, i32)>) -> ParamView {
    ParamView {
        unknown_1: param_value(entries, key_unknown_1()),
        unknown_2: param_value(entries, key_unknown_2()),
        unknown_3: param_value(entries, key_unknown_3()),
        unknown_4: param_value(entries, key_unknown_4()),
        unknown_5: param_value(entries, key_unknown_5()),
        unknown_6: param_value(entries, key_unknown_6()),
        unknown_7: param_value(entries, key_unknown_7()),
        unknown_8: param_value(entries, key_unknown_8()),
        unknown_9: param_value(entries, key_unknown_9()),
        unknown_10: param_value(entries, key_unknown_10()),
        unknown_11: param_value(entries, key_unknown_11()),
        unknown_12: param_value(entries, key_unknown_12()),
        unknown_13: param_value(entries, key_unknown_13()),
        unknown_14: param_value(entries, key_unknown_14()),
        unknown_15: param_value(entries, key_unknown_15()),
        unknown_16: param_value(entries, key_unknown_16()),
        unknown_17: param_value(entries, key_unknown_17()),
        hold_cat_details_time: param_value(entries, key_hold_cat_details_time()),
        time_until_death_surge: param_value(entries, key_time_until_death_surge()),
        behemoth_slayer_attack_multiplier: param_value(entries, key_behemoth_slayer_attack_multiplier()),
        behemoth_slayer_defense_multiplier: param_value(entries, key_behemoth_slayer_defense_multiplier()),
        unknown_22: param_value(entries, key_unknown_22()),
        logo_superfeline_roll_timer: param_value(entries, key_logo_superfeline_roll_timer()),
        logo_superfeline_chance_success: param_value(entries, key_logo_superfeline_chance_success()),
        logo_superfeline_failure_increase: param_value(entries, key_logo_superfeline_failure_increase()),
        unknown_26: param_value(entries, key_unknown_26()),
        unknown_27: param_value(entries, key_unknown_27()),
        unknown_28: param_value(entries, key_unknown_28()),
        unknown_29: param_value(entries, key_unknown_29()),
        unknown_30: param_value(entries, key_unknown_30()),
        unknown_31: param_value(entries, key_unknown_31()),
        unknown_32: param_value(entries, key_unknown_32()),
        unknown_33: param_value(entries, key_unknown_33()),
        volume_setting_percent_small: param_value(entries, key_volume_setting_percent_small()),
        volume_setting_percent_medium: param_value(entries, key_volume_setting_percent_medium()),
        volume_setting_percent_large: param_value(entries, key_volume_setting_percent_large()),
        spirit_position_offset: param_value(entries, key_spirit_position_offset()),
        sage_type_resist_weaken: param_value(entries, key_sage_type_resist_weaken()),
        sage_type_resist_freeze: param_value(entries, key_sage_type_resist_freeze()),
        sage_type_resist_slow: param_value(entries, key_sage_type_resist_slow()),
        sage_type_resist_curse: param_value(entries, key_sage_type_resist_curse()),
        sage_type_resist_knockback: param_value(entries, key_sage_type_resist_knockback()),
        sage_slayer_resist_weaken: param_value(entries, key_sage_slayer_resist_weaken()),
        sage_slayer_resist_freeze: param_value(entries, key_sage_slayer_resist_freeze()),
        sage_slayer_resist_slow: param_value(entries, key_sage_slayer_resist_slow()),
        sage_slayer_resist_curse: param_value(entries, key_sage_slayer_resist_curse()),
        sage_slayer_resist_other: param_value(entries, key_sage_slayer_resist_other()),
        sage_slayer_resist_warp: param_value(entries, key_sage_slayer_resist_warp()),
        sage_slayer_attack_multiplier: param_value(entries, key_sage_slayer_attack_multiplier()),
        sage_slayer_defense_multiplier: param_value(entries, key_sage_slayer_defense_multiplier()),
        metal_killer_hitpoint_behavior: param_value(entries, key_metal_killer_hitpoint_behavior()),
        unknown_52: param_value(entries, key_unknown_52()),
        unknown_53: param_value(entries, key_unknown_53()),
        story_sequence_hold_speed: param_value(entries, key_story_sequence_hold_speed()),
        explosion_start_time: param_value(entries, key_explosion_start_time()),
        explosion_hitbox_duration: param_value(entries, key_explosion_hitbox_duration()),
        explosion_delay_before_deletion: param_value(entries, key_explosion_delay_before_deletion()),
        explosion_delay_until_spike: param_value(entries, key_explosion_delay_until_spike()),
        explosion_big_width: param_value(entries, key_explosion_big_width()),
        explosion_medium_width: param_value(entries, key_explosion_medium_width()),
        explosion_small_width: param_value(entries, key_explosion_small_width()),
        explosion_big_damage_multiplier: param_value(entries, key_explosion_big_damage_multiplier()),
        explosion_medium_damage_multiplier: param_value(entries, key_explosion_medium_damage_multiplier()),
        explosion_small_damage_multiplier: param_value(entries, key_explosion_small_damage_multiplier()),
        unknown_65: param_value(entries, key_unknown_65()),
        unknown_66: param_value(entries, key_unknown_66()),
        unknown_67: param_value(entries, key_unknown_67()),
        unknown_68: param_value(entries, key_unknown_68()),
        unknown_69: param_value(entries, key_unknown_69()),
        unknown_70: param_value(entries, key_unknown_70()),
        unknown_71: param_value(entries, key_unknown_71()),
        unknown_72: param_value(entries, key_unknown_72()),
        unknown_73: param_value(entries, key_unknown_73()),
        unknown_74: param_value(entries, key_unknown_74()),
        unknown_75: param_value(entries, key_unknown_75()),
        unknown_76: param_value(entries, key_unknown_76()),
        unknown_77: param_value(entries, key_unknown_77()),
        unknown_78: param_value(entries, key_unknown_78()),
        comeback_treasure_festival_days: param_value(entries, key_comeback_treasure_festival_days()),
        unknown_80: param_value(entries, key_unknown_80()),
        unknown_81: param_value(entries, key_unknown_81()),
        rest: if entries.len() > NAMED_VALUES {
            entries.skip(NAMED_VALUES as int).map_values(|p: (Seq<u8>, i32)| p.1)
        } else {
            Seq::empty()
        },
    }
}

/// The value the last pair for a key gives it.
fn find_value(entries: &Vec<(Vec<u8>, i32)>, key: &[u8]) -> (r: i32)
    ensures
        r == param_value(entries@.map_values(|p: (Vec<u8>, i32)| (p.0@, p.1)), key@),
{
    let ghost es = entries@.map_values(|p: (Vec<u8>, i32)| (p.0@, p.1));
    let mut k: usize = entries.len();
    assert(es.take(k as int) =~= es);
    while k > 0
        invariant
            k <= entries@.len(),
            es == entries@.map_values(|p: (Vec<u8>, i32)| (p.0@, p.1)),
            param_value(es, key@) == param_value(es.take(k as int), key@),
        decreases k,
    {
        proof {
            assert(es.take(k as int).drop_last() =~= es.take(k - 1));
        }
        if same_bytes(entries[k - 1].0.as_slice(), key) {
            return entries[k - 1].1;
        }
        k -= 1;
    }
    0
}

fn read_pair(line: &[u8]) -> (r: Option<(Vec<u8>, i32)>)
    ensures
        match r {
            Some(p) => pair_of(line@) == Some((p.0@, p.1)),
            None => pair_of(line@) is None,
        },
{
    let body = crate::text::clean_line(line);
    let w = split_words(body.as_slice());
    if w.len() < 2 {
        return None;
    }
    let value = match to_i32(w[w.len() - 1].as_slice()) {
        Some(v) => v,
        None => 0,
    };
    let key = crate::text::copy_range(w[0].as_slice(), 0, w[0].len());
    assert(key@ =~= w@[0]@);
    Some((key, value))
}

fn build(entries: &Vec<(Vec<u8>, i32)>) -> (r: Param)
    ensures
        r@ == param_of(entries@.map_values(|p: (Vec<u8>, i32)| (p.0@, p.1))),
{
    let ghost es = entries@.map_values(|p: (Vec<u8>, i32)| (p.0@, p.1));
    let k_unknown_1: [u8; 14] = [115u8, 108, 111, 116, 95, 102, 111, 110, 116, 95, 115, 105, 122, 101];
    assert(k_unknown_1@ =~= key_unknown_1());
    let k_unknown_2: [u8; 9] = [115u8, 108, 111, 116, 95, 98, 103, 95, 121];
    assert(k_unknown_2@ =~= key_unknown_2());
    let k_unknown_3: [u8; 20] = [115u8, 108, 111, 116, 95, 110, 97, 109, 101, 95, 109, 97, 114, 103, 105, 110, 95, 116, 111, 112];
    assert(k_unknown_3@ =~= key_unknown_3());
    let k_unknown_4: [u8; 21] = [115u8, 108, 111, 116, 95, 110, 97, 109, 101, 95, 109, 97, 114, 103, 105, 110, 95, 108, 101, 102, 116];
    assert(k_unknown_4@ =~= key_unknown_4());
    let k_unknown_5: [u8; 18] = [115u8, 108, 111, 116, 95, 112, 97, 103, 101, 95, 121, 95, 111, 102, 102, 115, 101, 116];
    assert(k_unknown_5@ =~= key_unknown_5());
    let k_unknown_6: [u8; 15] = [115u8, 108, 111, 116, 95, 102, 111, 110, 116, 95, 115, 105, 122, 101, 50];
    assert(k_unknown_6@ =~= key_unknown_6());
    let k_unknown_7: [u8; 21] = [115u8, 108, 111, 116, 95, 110, 97, 109, 101, 95, 109, 97, 114, 103, 105, 110, 95, 116, 111, 112, 50];
    assert(k_unknown_7@ =~= key_unknown_7());
    let k_unknown_8: [u8; 22] = [115u8, 108, 111, 116, 95, 110, 97, 109, 101, 95, 109, 97, 114, 103, 105, 110, 95, 108, 101, 102, 116, 50];
    assert(k_unknown_8@ =~= key_unknown_8());
    let k_unknown_9: [u8; 16] = [98u8, 97, 116, 116, 108, 101, 95, 119, 97, 118, 101, 95, 115, 95, 115, 116];
    assert(k_unknown_9@ =~= key_unknown_9());
    let k_unknown_10: [u8; 19] = [98u8, 97, 116, 116, 108, 101, 95, 119, 97, 118, 101, 95, 115, 95, 105, 110, 116, 101, 114];
    assert(k_unknown_10@ =~= key_unknown_10());
    let k_unknown_11: [u8; 20] = [98u8, 97, 116, 116, 108, 101, 95, 119, 97, 118, 101, 95, 115, 95, 102, 114, 97, 109, 101, 49];
    assert(k_unknown_11@ =~= key_unknown_11());
    let k_unknown_12: [u8; 20] = [98u8, 97, 116, 116, 108, 101, 95, 119, 97, 118, 101, 95, 115, 95, 102, 114, 97, 109, 101, 50];
    assert(k_unknown_12@ =~= key_unknown_12());
    let k_unknown_13: [u8; 23] = [98u8, 97, 116, 116, 108, 101, 95, 115, 108, 111, 116, 95, 50, 108, 105, 110, 101, 115, 95, 108, 105, 110, 101];
    assert(k_unknown_13@ =~= key_unknown_13());
    let k_unknown_14: [u8; 20] = [98u8, 97, 116, 116, 108, 101, 95, 115, 108, 111, 116, 95, 50, 108, 105, 110, 101, 115, 95, 121];
    assert(k_unknown_14@ =~= key_unknown_14());
    let k_unknown_15: [u8; 13] = [98u8, 97, 116, 116, 108, 101, 95, 122, 111, 111, 109, 95, 121];
    assert(k_unknown_15@ =~= key_unknown_15());
    let k_unknown_16: [u8; 18] = [98u8, 97, 116, 116, 108, 101, 95, 122, 111, 111, 109, 95, 115, 108, 111, 116, 95, 121];
    assert(k_unknown_16@ =~= key_unknown_16());
    let k_unknown_17: [u8; 20] = [98u8, 97, 116, 116, 108, 101, 95, 122, 111, 111, 109, 95, 99, 97, 115, 116, 108, 101, 95, 121];
    assert(k_unknown_17@ =~= key_unknown_17());
    let k_hold_cat_details_time: [u8; 21] = [98u8, 97, 116, 116, 108, 101, 95, 115, 108, 111, 116, 95, 100, 101, 115, 99, 95, 119, 97, 105, 116];
    assert(k_hold_cat_details_time@ =~= key_hold_cat_details_time());
    let k_time_until_death_surge: [u8; 25] = [98u8, 97, 116, 116, 108, 101, 95, 100, 101, 97, 116, 104, 95, 118, 111, 108, 99, 97, 110, 111, 95, 116, 105, 109, 101];
    assert(k_time_until_death_surge@ =~= key_time_until_death_surge());
    let k_behemoth_slayer_attack_multiplier: [u8; 25] = [98u8, 97, 116, 116, 108, 101, 95, 115, 117, 112, 101, 114, 95, 98, 101, 97, 115, 116, 95, 104, 117, 110, 116, 101, 114];
    assert(k_behemoth_slayer_attack_multiplier@ =~= key_behemoth_slayer_attack_multiplier());
    let k_behemoth_slayer_defense_multiplier: [u8; 28] = [98u8, 97, 116, 116, 108, 101, 95, 115, 117, 112, 101, 114, 95, 98, 101, 97, 115, 116, 95, 104, 117, 110, 116, 101, 114, 95, 100, 102];
    assert(k_behemoth_slayer_defense_multiplier@ =~= key_behemoth_slayer_defense_multiplier());
    let k_unknown_22: [u8; 11] = [98u8, 111, 111, 115, 116, 95, 115, 112, 101, 101, 100];
    assert(k_unknown_22@ =~= key_unknown_22());
    let k_logo_superfeline_roll_timer: [u8; 16] = [108u8, 111, 103, 111, 95, 103, 105, 109, 109, 105, 99, 107, 95, 115, 101, 99];
    assert(k_logo_superfeline_roll_timer@ =~= key_logo_superfeline_roll_timer());
    let k_logo_superfeline_chance_success: [u8; 24] = [108u8, 111, 103, 111, 95, 103, 105, 109, 109, 105, 99, 107, 95, 112, 114, 111, 98, 97, 98, 105, 108, 105, 116, 121];
    assert(k_logo_superfeline_chance_success@ =~= key_logo_superfeline_chance_success());
    let k_logo_superfeline_failure_increase: [u8; 21] = [108u8, 111, 103, 111, 95, 103, 105, 109, 109, 105, 99, 107, 95, 105, 110, 99, 114, 101, 97, 115, 101];
    assert(k_logo_superfeline_failure_increase@ =~= key_logo_superfeline_failure_increase());
    let k_unknown_26: [u8; 25] = [98u8, 97, 116, 116, 108, 101, 95, 100, 101, 109, 111, 110, 95, 115, 117, 109, 109, 111, 110, 95, 102, 114, 97, 109, 101];
    assert(k_unknown_26@ =~= key_unknown_26());
    let k_unknown_27: [u8; 28] = [98u8, 97, 116, 116, 108, 101, 95, 100, 101, 109, 111, 110, 95, 115, 117, 109, 109, 111, 110, 95, 115, 101, 95, 102, 114, 97, 109, 101];
    assert(k_unknown_27@ =~= key_unknown_27());
    let k_unknown_28: [u8; 16] = [98u8, 97, 116, 116, 108, 101, 95, 99, 97, 115, 116, 108, 101, 95, 120, 48];
    assert(k_unknown_28@ =~= key_unknown_28());
    let k_unknown_29: [u8; 16] = [98u8, 97, 116, 116, 108, 101, 95, 99, 97, 115, 116, 108, 101, 95, 121, 48];
    assert(k_unknown_29@ =~= key_unknown_29());
    let k_unknown_30: [u8; 16] = [98u8, 97, 116, 116, 108, 101, 95, 99, 97, 115, 116, 108, 101, 95, 120, 49];
    assert(k_unknown_30@ =~= key_unknown_30());
    let k_unknown_31: [u8; 16] = [98u8, 97, 116, 116, 108, 101, 95, 99, 97, 115, 116, 108, 101, 95, 121, 49];
    assert(k_unknown_31@ =~= key_unknown_31());
    let k_unknown_32: [u8; 16] = [98u8, 97, 116, 116, 108, 101, 95, 99, 97, 115, 116, 108, 101, 95, 120, 50];
    assert(k_unknown_32@ =~= key_unknown_32());
    let k_unknown_33: [u8; 16] = [98u8, 97, 116, 116, 108, 101, 95, 99, 97, 115, 116, 108, 101, 95, 121, 50];
    assert(k_unknown_33@ =~= key_unknown_33());
    let k_volume_setting_percent_small: [u8; 19] = [118u8, 111, 108, 117, 109, 101, 95, 112, 101, 114, 99, 101, 110, 116, 97, 103, 101, 95, 115];
    assert(k_volume_setting_percent_small@ =~= key_volume_setting_percent_small());
    let k_volume_setting_percent_medium: [u8; 19] = [118u8, 111, 108, 117, 109, 101, 95, 112, 101, 114, 99, 101, 110, 116, 97, 103, 101, 95, 109];
    assert(k_volume_setting_percent_medium@ =~= key_volume_setting_percent_medium());
    let k_volume_setting_percent_large: [u8; 19] = [118u8, 111, 108, 117, 109, 101, 95, 112, 101, 114, 99, 101, 110, 116, 97, 103, 101, 95, 108];
    assert(k_volume_setting_percent_large@ =~= key_volume_setting_percent_large());
    let k_spirit_position_offset: [u8; 15] = [115u8, 117, 109, 109, 111, 110, 95, 112, 111, 115, 105, 116, 105, 111, 110];
    assert(k_spirit_position_offset@ =~= key_spirit_position_offset());
    let k_sage_type_resist_weaken: [u8; 24] = [98u8, 97, 116, 116, 108, 101, 95, 115, 117, 112, 101, 114, 95, 115, 97, 103, 101, 95, 119, 101, 97, 107, 101, 110];
    assert(k_sage_type_resist_weaken@ =~= key_sage_type_resist_weaken());
    let k_sage_type_resist_freeze: [u8; 24] = [98u8, 97, 116, 116, 108, 101, 95, 115, 117, 112, 101, 114, 95, 115, 97, 103, 101, 95, 102, 114, 101, 101, 122, 101];
    assert(k_sage_type_resist_freeze@ =~= key_sage_type_resist_freeze());
    let k_sage_type_resist_slow: [u8; 22] = [98u8, 97, 116, 116, 108, 101, 95, 115, 117, 112, 101, 114, 95, 115, 97, 103, 101, 95, 115, 108, 111, 119];
    assert(k_sage_type_resist_slow@ =~= key_sage_type_resist_slow());
    let k_sage_type_resist_curse: [u8; 23] = [98u8, 97, 116, 116, 108, 101, 95, 115, 117, 112, 101, 114, 95, 115, 97, 103, 101, 95, 99, 117, 114, 115, 101];
    assert(k_sage_type_resist_curse@ =~= key_sage_type_resist_curse());
    let k_sage_type_resist_knockback: [u8; 27] = [98u8, 97, 116, 116, 108, 101, 95, 115, 117, 112, 101, 114, 95, 115, 97, 103, 101, 95, 107, 110, 111, 99, 107, 98, 97, 99, 107];
    assert(k_sage_type_resist_knockback@ =~= key_sage_type_resist_knockback());
    let k_sage_slayer_resist_weaken: [u8; 31] = [98u8, 97, 116, 116, 108, 101, 95, 115, 117, 112, 101, 114, 95, 115, 97, 103, 101, 95, 104, 117, 110, 116, 101, 114, 95, 119, 101, 97, 107, 101, 110];
    assert(k_sage_slayer_resist_weaken@ =~= key_sage_slayer_resist_weaken());
    let k_sage_slayer_resist_freeze: [u8; 31] = [98u8, 97, 116, 116, 108, 101, 95, 115, 117, 112, 101, 114, 95, 115, 97, 103, 101, 95, 104, 117, 110, 116, 101, 114, 95, 102, 114, 101, 101, 122, 101];
    assert(k_sage_slayer_resist_freeze@ =~= key_sage_slayer_resist_freeze());
    let k_sage_slayer_resist_slow: [u8; 29] = [98u8, 97, 116, 116, 108, 101, 95, 115, 117, 112, 101, 114, 95, 115, 97, 103, 101, 95, 104, 117, 110, 116, 101, 114, 95, 115, 108, 111, 119];
    assert(k_sage_slayer_resist_slow@ =~= key_sage_slayer_resist_slow());
    let k_sage_slayer_resist_curse: [u8; 30] = [98u8, 97, 116, 116, 108, 101, 95, 115, 117, 112, 101, 114, 95, 115, 97, 103, 101, 95, 104, 117, 110, 116, 101, 114, 95, 99, 117, 114, 115, 101];
    assert(k_sage_slayer_resist_curse@ =~= key_sage_slayer_resist_curse());
    let k_sage_slayer_resist_other: [u8; 34] = [98u8, 97, 116, 116, 108, 101, 95, 115, 117, 112, 101, 114, 95, 115, 97, 103, 101, 95, 104, 117, 110, 116, 101, 114, 95, 107, 110, 111, 99, 107, 98, 97, 99, 107];
    assert(k_sage_slayer_resist_other@ =~= key_sage_slayer_resist_other());
    let k_sage_slayer_resist_warp: [u8; 29] = [98u8, 97, 116, 116, 108, 101, 95, 115, 117, 112, 101, 114, 95, 115, 97, 103, 101, 95, 104, 117, 110, 116, 101, 114, 95, 119, 97, 114, 112];
    assert(k_sage_slayer_resist_warp@ =~= key_sage_slayer_resist_warp());
    let k_sage_slayer_attack_multiplier: [u8; 32] = [98u8, 97, 116, 116, 108, 101, 95, 115, 117, 112, 101, 114, 95, 115, 97, 103, 101, 95, 104, 117, 110, 116, 101, 114, 95, 100, 97, 109, 97, 103, 101, 49];
    assert(k_sage_slayer_attack_multiplier@ =~= key_sage_slayer_attack_multiplier());
    let k_sage_slayer_defense_multiplier: [u8; 32] = [98u8, 97, 116, 116, 108, 101, 95, 115, 117, 112, 101, 114, 95, 115, 97, 103, 101, 95, 104, 117, 110, 116, 101, 114, 95, 100, 97, 109, 97, 103, 101, 50];
    assert(k_sage_slayer_defense_multiplier@ =~= key_sage_slayer_defense_multiplier());
    let k_metal_killer_hitpoint_behavior: [u8; 27] = [98u8, 97, 116, 116, 108, 101, 95, 109, 101, 116, 97, 108, 95, 107, 105, 108, 108, 101, 114, 95, 104, 112, 95, 116, 121, 112, 101];
    assert(k_metal_killer_hitpoint_behavior@ =~= key_metal_killer_hitpoint_behavior());
    let k_unknown_52: [u8; 15] = [99u8, 97, 116, 98, 97, 115, 101, 95, 98, 97, 110, 110, 101, 114, 49];
    assert(k_unknown_52@ =~= key_unknown_52());
    let k_unknown_53: [u8; 15] = [99u8, 97, 116, 98, 97, 115, 101, 95, 98, 97, 110, 110, 101, 114, 50];
    assert(k_unknown_53@ =~= key_unknown_53());
    let k_story_sequence_hold_speed: [u8; 24] = [115u8, 116, 111, 114, 121, 95, 102, 97, 115, 116, 95, 102, 111, 114, 119, 97, 114, 100, 95, 115, 112, 101, 101, 100];
    assert(k_story_sequence_hold_speed@ =~= key_story_sequence_hold_speed());
    let k_explosion_start_time: [u8; 23] = [98u8, 97, 116, 116, 108, 101, 95, 101, 120, 112, 108, 111, 115, 105, 111, 110, 95, 102, 114, 97, 109, 101, 49];
    assert(k_explosion_start_time@ =~= key_explosion_start_time());
    let k_explosion_hitbox_duration: [u8; 23] = [98u8, 97, 116, 116, 108, 101, 95, 101, 120, 112, 108, 111, 115, 105, 111, 110, 95, 102, 114, 97, 109, 101, 50];
    assert(k_explosion_hitbox_duration@ =~= key_explosion_hitbox_duration());
    let k_explosion_delay_before_deletion: [u8; 23] = [98u8, 97, 116, 116, 108, 101, 95, 101, 120, 112, 108, 111, 115, 105, 111, 110, 95, 102, 114, 97, 109, 101, 51];
    assert(k_explosion_delay_before_deletion@ =~= key_explosion_delay_before_deletion());
    let k_explosion_delay_until_spike: [u8; 23] = [98u8, 97, 116, 116, 108, 101, 95, 101, 120, 112, 108, 111, 115, 105, 111, 110, 95, 102, 114, 97, 109, 101, 52];
    assert(k_explosion_delay_until_spike@ =~= key_explosion_delay_until_spike());
    let k_explosion_big_width: [u8; 23] = [98u8, 97, 116, 116, 108, 101, 95, 101, 120, 112, 108, 111, 115, 105, 111, 110, 95, 119, 105, 100, 116, 104, 49];
    assert(k_explosion_big_width@ =~= key_explosion_big_width());
    let k_explosion_medium_width: [u8; 23] = [98u8, 97, 116, 116, 108, 101, 95, 101, 120, 112, 108, 111, 115, 105, 111, 110, 95, 119, 105, 100, 116, 104, 50];
    assert(k_explosion_medium_width@ =~= key_explosion_medium_width());
    let k_explosion_small_width: [u8; 23] = [98u8, 97, 116, 116, 108, 101, 95, 101, 120, 112, 108, 111, 115, 105, 111, 110, 95, 119, 105, 100, 116, 104, 51];
    assert(k_explosion_small_width@ =~= key_explosion_small_width());
    let k_explosion_big_damage_multiplier: [u8; 24] = [98u8, 97, 116, 116, 108, 101, 95, 101, 120, 112, 108, 111, 115, 105, 111, 110, 95, 100, 97, 109, 97, 103, 101, 49];
    assert(k_explosion_big_damage_multiplier@ =~= key_explosion_big_damage_multiplier());
    let k_explosion_medium_damage_multiplier: [u8; 24] = [98u8, 97, 116, 116, 108, 101, 95, 101, 120, 112, 108, 111, 115, 105, 111, 110, 95, 100, 97, 109, 97, 103, 101, 50];
    assert(k_explosion_medium_damage_multiplier@ =~= key_explosion_medium_damage_multiplier());
    let k_explosion_small_damage_multiplier: [u8; 24] = [98u8, 97, 116, 116, 108, 101, 95, 101, 120, 112, 108, 111, 115, 105, 111, 110, 95, 100, 97, 109, 97, 103, 101, 51];
    assert(k_explosion_small_damage_multiplier@ =~= key_explosion_small_damage_multiplier());
    let k_unknown_65: [u8; 32] = [98u8, 97, 116, 116, 108, 101, 95, 97, 102, 95, 100, 101, 97, 116, 104, 95, 118, 111, 108, 99, 97, 110, 111, 95, 100, 105, 115, 116, 97, 110, 99, 101];
    assert(k_unknown_65@ =~= key_unknown_65());
    let k_unknown_66: [u8; 29] = [98u8, 97, 116, 116, 108, 101, 95, 97, 102, 95, 100, 101, 97, 116, 104, 95, 118, 111, 108, 99, 97, 110, 111, 95, 119, 105, 100, 116, 104];
    assert(k_unknown_66@ =~= key_unknown_66());
    let k_unknown_67: [u8; 32] = [98u8, 97, 116, 116, 108, 101, 95, 97, 102, 95, 99, 111, 110, 100, 105, 116, 105, 111, 110, 95, 112, 114, 111, 100, 117, 99, 116, 105, 111, 110, 95, 48];
    assert(k_unknown_67@ =~= key_unknown_67());
    let k_unknown_68: [u8; 32] = [98u8, 97, 116, 116, 108, 101, 95, 97, 102, 95, 99, 111, 110, 100, 105, 116, 105, 111, 110, 95, 112, 114, 111, 100, 117, 99, 116, 105, 111, 110, 95, 49];
    assert(k_unknown_68@ =~= key_unknown_68());
    let k_unknown_69: [u8; 32] = [98u8, 97, 116, 116, 108, 101, 95, 97, 102, 95, 99, 111, 110, 100, 105, 116, 105, 111, 110, 95, 112, 114, 111, 100, 117, 99, 116, 105, 111, 110, 95, 50];
    assert(k_unknown_69@ =~= key_unknown_69());
    let k_unknown_70: [u8; 32] = [98u8, 97, 116, 116, 108, 101, 95, 97, 102, 95, 99, 111, 110, 100, 105, 116, 105, 111, 110, 95, 112, 114, 111, 100, 117, 99, 116, 105, 111, 110, 95, 51];
    assert(k_unknown_70@ =~= key_unknown_70());
    let k_unknown_71: [u8; 32] = [98u8, 97, 116, 116, 108, 101, 95, 97, 102, 95, 99, 111, 110, 100, 105, 116, 105, 111, 110, 95, 112, 114, 111, 100, 117, 99, 116, 105, 111, 110, 95, 52];
    assert(k_unknown_71@ =~= key_unknown_71());
    let k_unknown_72: [u8; 32] = [98u8, 97, 116, 116, 108, 101, 95, 97, 102, 95, 99, 111, 110, 100, 105, 116, 105, 111, 110, 95, 112, 114, 111, 100, 117, 99, 116, 105, 111, 110, 95, 53];
    assert(k_unknown_72@ =~= key_unknown_72());
    let k_unknown_73: [u8; 35] = [98u8, 97, 116, 116, 108, 101, 95, 97, 102, 95, 99, 111, 110, 100, 105, 116, 105, 111, 110, 95, 112, 114, 111, 100, 117, 99, 116, 105, 111, 110, 95, 116, 121, 112, 101];
    assert(k_unknown_73@ =~= key_unknown_73());
    let k_unknown_74: [u8; 19] = [97u8, 117, 116, 111, 115, 101, 116, 95, 108, 101, 118, 101, 108, 95, 112, 97, 114, 97, 109];
    assert(k_unknown_74@ =~= key_unknown_74());
    let k_unknown_75: [u8; 18] = [97u8, 117, 116, 111, 115, 101, 116, 95, 109, 117, 115, 116, 95, 112, 97, 114, 97, 109];
    assert(k_unknown_75@ =~= key_unknown_75());
    let k_unknown_76: [u8; 22] = [97u8, 117, 116, 111, 115, 101, 116, 95, 99, 117, 116, 95, 115, 99, 111, 114, 101, 95, 114, 97, 116, 101];
    assert(k_unknown_76@ =~= key_unknown_76());
    let k_unknown_77: [u8; 25] = [97u8, 117, 116, 111, 115, 101, 116, 95, 110, 111, 110, 95, 116, 97, 114, 103, 101, 116, 95, 111, 102, 102, 115, 101, 116];
    assert(k_unknown_77@ =~= key_unknown_77());
    let k_unknown_78: [u8; 25] = [98u8, 97, 116, 116, 108, 101, 95, 112, 111, 119, 101, 114, 117, 112, 95, 107, 105, 108, 108, 95, 101, 110, 101, 109, 121];
    assert(k_unknown_78@ =~= key_unknown_78());
    let k_comeback_treasure_festival_days: [u8; 21] = [99u8, 111, 109, 101, 98, 97, 99, 107, 95, 116, 114, 101, 97, 115, 117, 114, 101, 95, 100, 97, 121];
    assert(k_comeback_treasure_festival_days@ =~= key_comeback_treasure_festival_days());
    let k_unknown_80: [u8; 36] = [117u8, 112, 100, 97, 116, 101, 95, 118, 101, 114, 115, 105, 111, 110, 95, 110, 111, 116, 105, 102, 105, 99, 97, 116, 105, 111, 110, 95, 105, 110, 116, 101, 114, 118, 97, 108];
    assert(k_unknown_80@ =~= key_unknown_80());
    let k_unknown_81: [u8; 20] = [98u8, 97, 116, 116, 108, 101, 95, 115, 101, 110, 116, 97, 105, 95, 114, 101, 99, 97, 115, 116];
    assert(k_unknown_81@ =~= key_unknown_81());
    let mut rest: Vec<i32> = Vec::new();
    let mut i: usize = NAMED_VALUES;
    if entries.len() > NAMED_VALUES {
        assert(es.skip(NAMED_VALUES as int).map_values(|p: (Seq<u8>, i32)| p.1).take(0) =~= Seq::<i32>::empty());
        while i < entries.len()
            invariant
                NAMED_VALUES <= i <= entries@.len(),
                es == entries@.map_values(|p: (Vec<u8>, i32)| (p.0@, p.1)),
                rest@ == es.skip(NAMED_VALUES as int).map_values(|p: (Seq<u8>, i32)| p.1).take(i - NAMED_VALUES),
            decreases entries@.len() - i,
        {
            rest.push(entries[i].1);
            proof {
                assert(rest@ =~= es.skip(NAMED_VALUES as int).map_values(|p: (Seq<u8>, i32)| p.1).take(i + 1 - NAMED_VALUES));
            }
            i += 1;
        }
        assert(es.skip(NAMED_VALUES as int).map_values(|p: (Seq<u8>, i32)| p.1).take(i - NAMED_VALUES)
            =~= es.skip(NAMED_VALUES as int).map_values(|p: (Seq<u8>, i32)| p.1));
    } else {
        assert(rest@ =~= Seq::<i32>::empty());
    }
    Param {
        unknown_1: find_value(&entries, &k_unknown_1),
        unknown_2: find_value(&entries, &k_unknown_2),
        unknown_3: find_value(&entries, &k_unknown_3),
        unknown_4: find_value(&entries, &k_unknown_4),
        unknown_5: find_value(&entries, &k_unknown_5),
        unknown_6: find_value(&entries, &k_unknown_6),
        unknown_7: find_value(&entries, &k_unknown_7),
        unknown_8: find_value(&entries, &k_unknown_8),
        unknown_9: find_value(&entries, &k_unknown_9),
        unknown_10: find_value(&entries, &k_unknown_10),
        unknown_11: find_value(&entries, &k_unknown_11),
        unknown_12: find_value(&entries, &k_unknown_12),
        unknown_13: find_value(&entries, &k_unknown_13),
        unknown_14: find_value(&entries, &k_unknown_14),
        unknown_15: find_value(&entries, &k_unknown_15),
        unknown_16: find_value(&entries, &k_unknown_16),
        unknown_17: find_value(&entries, &k_unknown_17),
        hold_cat_details_time: find_value(&entries, &k_hold_cat_details_time),
        time_until_death_surge: find_value(&entries, &k_time_until_death_surge),
        behemoth_slayer_attack_multiplier: find_value(&entries, &k_behemoth_slayer_attack_multiplier),
        behemoth_slayer_defense_multiplier: find_value(&entries, &k_behemoth_slayer_defense_multiplier),
        unknown_22: find_value(&entries, &k_unknown_22),
        logo_superfeline_roll_timer: find_value(&entries, &k_logo_superfeline_roll_timer),
        logo_superfeline_chance_success: find_value(&entries, &k_logo_superfeline_chance_success),
        logo_superfeline_failure_increase: find_value(&entries, &k_logo_superfeline_failure_increase),
        unknown_26: find_value(&entries, &k_unknown_26),
        unknown_27: find_value(&entries, &k_unknown_27),
        unknown_28: find_value(&entries, &k_unknown_28),
        unknown_29: find_value(&entries, &k_unknown_29),
        unknown_30: find_value(&entries, &k_unknown_30),
        unknown_31: find_value(&entries, &k_unknown_31),
        unknown_32: find_value(&entries, &k_unknown_32),
        unknown_33: find_value(&entries, &k_unknown_33),
        volume_setting_percent_small: find_value(&entries, &k_volume_setting_percent_small),
        volume_setting_percent_medium: find_value(&entries, &k_volume_setting_percent_medium),
        volume_setting_percent_large: find_value(&entries, &k_volume_setting_percent_large),
        spirit_position_offset: find_value(&entries, &k_spirit_position_offset),
        sage_type_resist_weaken: find_value(&entries, &k_sage_type_resist_weaken),
        sage_type_resist_freeze: find_value(&entries, &k_sage_type_resist_freeze),
        sage_type_resist_slow: find_value(&entries, &k_sage_type_resist_slow),
        sage_type_resist_curse: find_value(&entries, &k_sage_type_resist_curse),
        sage_type_resist_knockback: find_value(&entries, &k_sage_type_resist_knockback),
        sage_slayer_resist_weaken: find_value(&entries, &k_sage_slayer_resist_weaken),
        sage_slayer_resist_freeze: find_value(&entries, &k_sage_slayer_resist_freeze),
        sage_slayer_resist_slow: find_value(&entries, &k_sage_slayer_resist_slow),
        sage_slayer_resist_curse: find_value(&entries, &k_sage_slayer_resist_curse),
        sage_slayer_resist_other: find_value(&entries, &k_sage_slayer_resist_other),
        sage_slayer_resist_warp: find_value(&entries, &k_sage_slayer_resist_warp),
        sage_slayer_attack_multiplier: find_value(&entries, &k_sage_slayer_attack_multiplier),
        sage_slayer_defense_multiplier: find_value(&entries, &k_sage_slayer_defense_multiplier),
        metal_killer_hitpoint_behavior: find_value(&entries, &k_metal_killer_hitpoint_behavior),
        unknown_52: find_value(&entries, &k_unknown_52),
        unknown_53: find_value(&entries, &k_unknown_53),
        story_sequence_hold_speed: find_value(&entries, &k_story_sequence_hold_speed),
        explosion_start_time: find_value(&entries, &k_explosion_start_time),
        explosion_hitbox_duration: find_value(&entries, &k_explosion_hitbox_duration),
        explosion_delay_before_deletion: find_value(&entries, &k_explosion_delay_before_deletion),
        explosion_delay_until_spike: find_value(&entries, &k_explosion_delay_until_spike),
        explosion_big_width: find_value(&entries, &k_explosion_big_width),
        explosion_medium_width: find_value(&entries, &k_explosion_medium_width),
        explosion_small_width: find_value(&entries, &k_explosion_small_width),
        explosion_big_damage_multiplier: find_value(&entries, &k_explosion_big_damage_multiplier),
        explosion_medium_damage_multiplier: find_value(&entries, &k_explosion_medium_damage_multiplier),
        explosion_small_damage_multiplier: find_value(&entries, &k_explosion_small_damage_multiplier),
        unknown_65: find_value(&entries, &k_unknown_65),
        unknown_66: find_value(&entries, &k_unknown_66),
        unknown_67: find_value(&entries, &k_unknown_67),
        unknown_68: find_value(&entries, &k_unknown_68),
        unknown_69: find_value(&entries, &k_unknown_69),
        unknown_70: find_value(&entries, &k_unknown_70),
        unknown_71: find_value(&entries, &k_unknown_71),
        unknown_72: find_value(&entries, &k_unknown_72),
        unknown_73: find_value(&entries, &k_unknown_73),
        unknown_74: find_value(&entries, &k_unknown_74),
        unknown_75: find_value(&entries, &k_unknown_75),
        unknown_76: find_value(&entries, &k_unknown_76),
        unknown_77: find_value(&entries, &k_unknown_77),
        unknown_78: find_value(&entries, &k_unknown_78),
        comeback_treasure_festival_days: find_value(&entries, &k_comeback_treasure_festival_days),
        unknown_80: find_value(&entries, &k_unknown_80),
        unknown_81: find_value(&entries, &k_unknown_81),
        rest,
    }
}

impl Param {
    /// Parses the global parameters.
    ///
    /// Each line, without its `//` comment, declares a pair when it has at
    /// least two words: its first word is the key and its last the value.
    ///
    /// # Returns
    /// The parameters, or `ParamError::EmptyFile` exactly when no line
    /// declares a pair.
    pub fn parse(bytes: &[u8]) -> (r: Result<Self, ParamError>)
        ensures
            ({
                let entries = pairs_of(table_lines(bytes@));
                match r {
                    Ok(p) => entries.len() > 0 && p@ == param_of(entries),
                    Err(e) => entries.len() == 0 && e == ParamError::EmptyFile,
                }
            }),
    {
        let content = scrub_bytes(bytes);
        let lines = split_lines(content.as_slice());
        let ghost ls = views(lines@);
        let mut entries: Vec<(Vec<u8>, i32)> = Vec::new();
        let mut i: usize = 0;
        while i < lines.len()
            invariant
                i <= lines@.len(),
                ls == views(lines@),
                ls == table_lines(bytes@),
                entries@.map_values(|p: (Vec<u8>, i32)| (p.0@, p.1)) == pairs_of(ls.take(i as int)),
            decreases lines@.len() - i,
        {
            proof {
                assert(ls.take(i + 1).drop_last() =~= ls.take(i as int));
                assert(ls.take(i + 1).last() == lines@[i as int]@);
            }
            match read_pair(lines[i].as_slice()) {
                Some(p) => {
                    let ghost before = entries@.map_values(|p: (Vec<u8>, i32)| (p.0@, p.1));
                    let ghost pv = (p.0@, p.1);
                    entries.push(p);
                    proof {
                        assert(entries@.map_values(|p: (Vec<u8>, i32)| (p.0@, p.1)) =~= before.push(pv));
                    }
                },
                None => {},
            }
            i += 1;
        }
        proof {
            assert(ls.take(i as int) =~= ls);
        }
        if entries.len() == 0 {
            return Err(ParamError::EmptyFile);
        }
        Ok(build(&entries))
    }
}

} // verus!

use vstd::prelude::*;

use crate::text::{copy_str, dec_signed_padded, push_signed_padded, views};

verus! {

/// A Hyprland setting changed live with `hyprctl keyword`.
pub enum HyprSetting {
    GapsOut(i32),
    GapsIn(i32),
    BorderSize(i32),
    Rounding(i32),
    /// `rrggbb`, without `#`.
    ActiveBorderColor(String),
    BlurEnabled(bool),
    BlurSize(i32),
    ShadowEnabled(bool),
    AnimationsEnabled(bool),
}

pub open spec fn flag_text(b: bool) -> Seq<char> {
    if b { "true"@ } else { "false"@ }
}

/// The keyword and the value `hyprctl keyword` gets for a setting.
pub open spec fn keyword_of(s: HyprSetting) -> (Seq<char>, Seq<char>) {
    match s {
        HyprSetting::GapsOut(v) => ("general:gaps_out"@, dec_signed_padded(v as int, 0)),
        HyprSetting::GapsIn(v) => ("general:gaps_in"@, dec_signed_padded(v as int, 0)),
        HyprSetting::BorderSize(v) => ("general:border_size"@, dec_signed_padded(v as int, 0)),
        HyprSetting::Rounding(v) => ("decoration:rounding"@, dec_signed_padded(v as int, 0)),
        HyprSetting::ActiveBorderColor(hex) => ("general:col.active_border"@, "rgb("@ + hex@ + ")"@),
        HyprSetting::BlurEnabled(b) => ("decoration:blur:enabled"@, flag_text(b)),
        HyprSetting::BlurSize(v) => ("decoration:blur:size"@, dec_signed_padded(v as int, 0)),
        HyprSetting::ShadowEnabled(b) => ("decoration:shadow:enabled"@, flag_text(b)),
        HyprSetting::AnimationsEnabled(b) => ("animations:enabled"@, flag_text(b)),
    }
}

fn int_text(v: i32) -> (r: String)
    ensures
        r@ == dec_signed_padded(v as int, 0),
{
    let mut r = String::new();
    push_signed_padded(&mut r, v as i64, 0);
    r
}

fn flag(b: bool) -> (r: String)
    ensures
        r@ == flag_text(b),
{
    if b {
        copy_str("true")
    } else {
        copy_str("false")
    }
}

/// The arguments of the `hyprctl` call that applies a setting live:
/// `keyword <name> <value>`.
pub fn hyprctl_args(setting: &HyprSetting) -> (argv: Vec<String>)
    ensures
        views(argv@) == seq!["keyword"@, keyword_of(*setting).0, keyword_of(*setting).1],
{
    let (name, value) = match setting {
        HyprSetting::GapsOut(v) => (copy_str("general:gaps_out"), int_text(*v)),
        HyprSetting::GapsIn(v) => (copy_str("general:gaps_in"), int_text(*v)),
        HyprSetting::BorderSize(v) => (copy_str("general:border_size"), int_text(*v)),
        HyprSetting::Rounding(v) => (copy_str("decoration:rounding"), int_text(*v)),
        HyprSetting::ActiveBorderColor(hex) => {
            let mut value = copy_str("rgb(");
            value.append(hex.as_str());
            value.append(")");
            (copy_str("general:col.active_border"), value)
        },
        HyprSetting::BlurEnabled(b) => (copy_str("decoration:blur:enabled"), flag(*b)),
        HyprSetting::BlurSize(v) => (copy_str("decoration:blur:size"), int_text(*v)),
        HyprSetting::ShadowEnabled(b) => (copy_str("decoration:shadow:enabled"), flag(*b)),
        HyprSetting::AnimationsEnabled(b) => (copy_str("animations:enabled"), flag(*b)),
    };
    let mut argv: Vec<String> = Vec::new();
    argv.push(copy_str("keyword"));
    argv.push(name);
    argv.push(value);
    proof {
        assert(views(argv@) =~= seq!["keyword"@, keyword_of(*setting).0, keyword_of(*setting).1]);
    }
    argv
}

/// A switch setting is sent as `true` exactly when it is switched on and as
/// `false` exactly when it is switched off, so switching it on and off send
/// different values.
pub proof fn law_switches_send_their_state(b: bool)
    ensures
        (keyword_of(HyprSetting::BlurEnabled(b)).1 == "true"@) == b,
        (keyword_of(HyprSetting::BlurEnabled(b)).1 == "false"@) == !b,
        (keyword_of(HyprSetting::ShadowEnabled(b)).1 == "true"@) == b,
        (keyword_of(HyprSetting::ShadowEnabled(b)).1 == "false"@) == !b,
        (keyword_of(HyprSetting::AnimationsEnabled(b)).1 == "true"@) == b,
        (keyword_of(HyprSetting::AnimationsEnabled(b)).1 == "false"@) == !b,
        keyword_of(HyprSetting::BlurEnabled(b)) != keyword_of(HyprSetting::BlurEnabled(!b)),
        keyword_of(HyprSetting::ShadowEnabled(b)) != keyword_of(HyprSetting::ShadowEnabled(!b)),
        keyword_of(HyprSetting::AnimationsEnabled(b)) != keyword_of(HyprSetting::AnimationsEnabled(!b)),
{
    reveal_strlit("true");
    reveal_strlit("false");
    assert("true"@.len() != "false"@.len());
}

/// Which kind of setting a value is.
pub open spec fn setting_kind(s: HyprSetting) -> int {
    match s {
        HyprSetting::GapsOut(_) => 0,
        HyprSetting::GapsIn(_) => 1,
        HyprSetting::BorderSize(_) => 2,
        HyprSetting::Rounding(_) => 3,
        HyprSetting::ActiveBorderColor(_) => 4,
        HyprSetting::BlurEnabled(_) => 5,
        HyprSetting::BlurSize(_) => 6,
        HyprSetting::ShadowEnabled(_) => 7,
        HyprSetting::AnimationsEnabled(_) => 8,
    }
}

/// Settings of different kinds change different Hyprland keywords.
pub proof fn law_each_setting_has_its_own_keyword(s: HyprSetting, t: HyprSetting)
    ensures
        setting_kind(s) != setting_kind(t) ==> keyword_of(s).0 != keyword_of(t).0,
{
    reveal_strlit("general:gaps_out");
    assert("general:gaps_out"@.len() == 16);
    reveal_strlit("general:gaps_in");
    assert("general:gaps_in"@.len() == 15);
    reveal_strlit("general:border_size");
    assert("general:border_size"@.len() == 19);
    reveal_strlit("decoration:rounding");
    assert("decoration:rounding"@.len() == 19);
    reveal_strlit("general:col.active_border");
    assert("general:col.active_border"@.len() == 25);
    reveal_strlit("decoration:blur:enabled");
    assert("decoration:blur:enabled"@.len() == 23);
    reveal_strlit("decoration:blur:size");
    assert("decoration:blur:size"@.len() == 20);
    reveal_strlit("decoration:shadow:enabled");
    assert("decoration:shadow:enabled"@.len() == 25);
    reveal_strlit("animations:enabled");
    assert("animations:enabled"@.len() == 18);
    assert("general:border_size"@[0] != "decoration:rounding"@[0]);
    assert("general:col.active_border"@[0] != "decoration:shadow:enabled"@[0]);
}

} // verus!

//! The text table, the board input parameters, the model-path choice, and
//! the scalar helpers.

use qnmdsol::board::BrainFlowInputParams;
use qnmdsol::classifier::find_model_path;
use qnmdsol::fixed::{clamp_i64, isqrt_i64};
use qnmdsol::lang::{Language, UiText};

#[test]
fn text_table_serves_both_languages() {
    assert_eq!(Language::English.text(UiText::Title), "QNMDsol demo v0.1");
    assert_eq!(Language::English.text(UiText::Connect), "CONNECT");
    assert_eq!(Language::Chinese.text(UiText::Connect), "连接");
    assert_eq!(Language::Chinese.text(UiText::Ready), "QNMDsol 演示 v0.1 已就绪。");
    assert_eq!(Language::English.text(UiText::ThemeDark), "🌙");
}

#[test]
fn default_record_label_is_localized() {
    assert_eq!(Language::English.default_record_label(), "Attack");
    assert_eq!(Language::Chinese.default_record_label(), "攻击");
}

#[test]
fn serial_params_carry_the_port_and_no_master_board() {
    let p = BrainFlowInputParams::for_serial("COM7");
    assert_eq!(p.serial_port, "COM7");
    assert_eq!(p.mac_address, "");
    assert_eq!(p.ip_port, 0);
    assert_eq!(p.timeout, 0);
    assert_eq!(p.master_board, -100);
}

#[test]
fn model_path_prefers_the_models_directory() {
    assert_eq!(find_model_path(true, true, true), Some("models/neurogpt.onnx"));
    assert_eq!(find_model_path(false, true, true), Some("model/neurogpt.onnx"));
    assert_eq!(find_model_path(false, false, true), Some("neurogpt.onnx"));
    assert_eq!(find_model_path(false, false, false), None);
}

#[test]
fn integer_square_root_is_exact() {
    assert_eq!(isqrt_i64(0), 0);
    assert_eq!(isqrt_i64(1), 1);
    assert_eq!(isqrt_i64(3), 1);
    assert_eq!(isqrt_i64(4), 2);
    assert_eq!(isqrt_i64(999999), 999);
    assert_eq!(isqrt_i64(1000000), 1000);
    assert_eq!(isqrt_i64(850000000), 29154);
    assert_eq!(isqrt_i64(i64::MAX), 3037000499);
}

#[test]
fn clamp_holds_the_bounds() {
    assert_eq!(clamp_i64(5, 0, 10), 5);
    assert_eq!(clamp_i64(-5, 0, 10), 0);
    assert_eq!(clamp_i64(50, 0, 10), 10);
}

//! Interface languages and the fixed text table of every label the user
//! interface shows. Localization carries no decision logic; the table
//! lives here so the strings stay one total function of language and key.

use vstd::prelude::*;

verus! {

#[derive(Clone, Copy, PartialEq, Eq, Structural, Debug)]
pub enum Language {
    English,
    Chinese,
}

/// Every user-interface label the text table serves.
#[derive(Clone, Copy, PartialEq, Eq, Structural, Debug)]
pub enum UiText {
    Title,
    Subtitle,
    Sim,
    Real,
    Connect,
    Disconnect,
    StartStream,
    StopStream,
    ResetView,
    Controller,
    Data,
    Recording,
    HardwareRequired,
    KeyHint,
    ConnectFirst,
    Threshold,
    Calibration,
    FollowOn,
    FollowOff,
    Ready,
    LanguagePrompt,
    StartSubtitle,
    StartHeading,
    StartRecording,
    StopRecording,
    FftSize,
    Update,
    GenerateWaveformPng,
    GenerateSpectrumPng,
    WaveformPngLabel,
    SpectrumPngLabel,
    NoSpectrumYet,
    RecordRelax,
    RecordAction,
    ConnectStreamFirst,
    Loading,
    Sensitivity,
    Smoothness,
    Window,
    Window30,
    Window60,
    TabWaveform,
    TabSpectrum,
    TabPng,
    TabCalibration,
    PortLabel,
    RefreshPorts,
    PortsScanned,
    InjectArtifact,
    ReportFeedback,
    ThemeLight,
    ThemeDark,
    LanguageSwitch,
}

impl Language {
    /// The label text for `key` in this language; total over both enums.
    pub fn text(&self, key: UiText) -> &'static str {
        match (self, key) {
            (Language::English, UiText::Title) => "QNMDsol demo v0.1",
            (Language::English, UiText::Subtitle) => "Neural Interface",
            (Language::English, UiText::Sim) => "SIM",
            (Language::English, UiText::Real) => "REAL",
            (Language::English, UiText::Connect) => "CONNECT",
            (Language::English, UiText::Disconnect) => "DISCONNECT",
            (Language::English, UiText::StartStream) => "START STREAM",
            (Language::English, UiText::StopStream) => "STOP STREAM",
            (Language::English, UiText::ResetView) => "🔄 RESET VIEW",
            (Language::English, UiText::Controller) => "XBOX CONTROLLER VISUALIZER",
            (Language::English, UiText::Data) => "AI DATA COLLECTION",
            (Language::English, UiText::Recording) => "Recording...",
            (Language::English, UiText::HardwareRequired) => "Hardware required",
            (Language::English, UiText::KeyHint) => "Try Keys: WASD / Space / ZXC / QEUO / Arrows",
            (Language::English, UiText::ConnectFirst) => "Connect first.",
            (Language::English, UiText::Threshold) => "Trigger Threshold:",
            (Language::English, UiText::Calibration) => "Calibration",
            (Language::English, UiText::FollowOn) => "📡 Follow Latest: ON",
            (Language::English, UiText::FollowOff) => "📡 Follow Latest: OFF",
            (Language::English, UiText::Ready) => "QNMDsol Demo v0.1 Ready.",
            (Language::English, UiText::LanguagePrompt) => "Choose your language",
            (Language::English, UiText::StartSubtitle) => "Pick a language to start",
            (Language::English, UiText::StartHeading) => "Welcome to QNMDsol",
            (Language::English, UiText::StartRecording) => "🔴 RECORD",
            (Language::English, UiText::StopRecording) => "⏹ STOP",
            (Language::English, UiText::FftSize) => "FFT Size:",
            (Language::English, UiText::Update) => "Update",
            (Language::English, UiText::GenerateWaveformPng) => "Generate Waveform PNG",
            (Language::English, UiText::GenerateSpectrumPng) => "Generate Spectrum PNG",
            (Language::English, UiText::WaveformPngLabel) => "Waveform PNG:",
            (Language::English, UiText::SpectrumPngLabel) => "Spectrum PNG:",
            (Language::English, UiText::NoSpectrumYet) => {
                "No spectrum yet. Start streaming to populate."
            },
            (Language::English, UiText::RecordRelax) => "1. Record Relax (3s)",
            (Language::English, UiText::RecordAction) => "2. Record Action (3s)",
            (Language::English, UiText::ConnectStreamFirst) => "Connect & Stream first.",
            (Language::English, UiText::Loading) => "Working...",
            (Language::English, UiText::Sensitivity) => "Sensitivity",
            (Language::English, UiText::Smoothness) => "Smoothing",
            (Language::English, UiText::Window) => "Window",
            (Language::English, UiText::Window30) => "30s",
            (Language::English, UiText::Window60) => "60s",
            (Language::English, UiText::TabWaveform) => "Waveform",
            (Language::English, UiText::TabSpectrum) => "Spectrum",
            (Language::English, UiText::TabPng) => "PNG Export",
            (Language::English, UiText::TabCalibration) => "Calibration",
            (Language::English, UiText::PortLabel) => "Port:",
            (Language::English, UiText::RefreshPorts) => "Refresh",
            (Language::English, UiText::PortsScanned) => "Ports scanned:",
            (Language::English, UiText::InjectArtifact) => "Inject Artifact",
            (Language::English, UiText::ReportFeedback) => "Report Feedback",
            (Language::English, UiText::ThemeLight) => "☀️",
            (Language::English, UiText::ThemeDark) => "🌙",
            (Language::English, UiText::LanguageSwitch) => "Language",
            (Language::Chinese, UiText::Title) => "QNMDsol 演示 v0.1",
            (Language::Chinese, UiText::Subtitle) => "神经接口控制",
            (Language::Chinese, UiText::Sim) => "模拟模式",
            (Language::Chinese, UiText::Real) => "实机模式",
            (Language::Chinese, UiText::Connect) => "连接",
            (Language::Chinese, UiText::Disconnect) => "断开",
            (Language::Chinese, UiText::StartStream) => "开始采集",
            (Language::Chinese, UiText::StopStream) => "停止采集",
            (Language::Chinese, UiText::ResetView) => "🔄 重置视图",
            (Language::Chinese, UiText::Controller) => "XBOX 手柄可视化",
            (Language::Chinese, UiText::Data) => "AI 数据采集",
            (Language::Chinese, UiText::Recording) => "录制中...",
            (Language::Chinese, UiText::HardwareRequired) => "需要连接硬件设备",
            (Language::Chinese, UiText::KeyHint) => {
                "模拟: WASD移动 / Space跳跃 / ZXC攻击 / QEUO肩键 / 方向键"
            },
            (Language::Chinese, UiText::ConnectFirst) => "请先连接设备。",
            (Language::Chinese, UiText::Threshold) => "触发阈值：",
            (Language::Chinese, UiText::Calibration) => "校准",
            (Language::Chinese, UiText::FollowOn) => "📡 追踪最新波形：开",
            (Language::Chinese, UiText::FollowOff) => "📡 追踪最新波形：关",
            (Language::Chinese, UiText::Ready) => "QNMDsol 演示 v0.1 已就绪。",
            (Language::Chinese, UiText::LanguagePrompt) => "选择你的界面语言",
            (Language::Chinese, UiText::StartSubtitle) => "点击语言开始体验",
            (Language::Chinese, UiText::StartHeading) => "欢迎来到 QNMDsol",
            (Language::Chinese, UiText::StartRecording) => "🔴 开始录制",
            (Language::Chinese, UiText::StopRecording) => "⏹ 停止录制",
            (Language::Chinese, UiText::FftSize) => "FFT 大小：",
            (Language::Chinese, UiText::Update) => "更新",
            (Language::Chinese, UiText::GenerateWaveformPng) => "导出波形 PNG",
            (Language::Chinese, UiText::GenerateSpectrumPng) => "导出频谱 PNG",
            (Language::Chinese, UiText::WaveformPngLabel) => "波形图：",
            (Language::Chinese, UiText::SpectrumPngLabel) => "频谱图：",
            (Language::Chinese, UiText::NoSpectrumYet) => "暂无频谱，请开始采集。",
            (Language::Chinese, UiText::RecordRelax) => "1. 记录放松状态（3秒）",
            (Language::Chinese, UiText::RecordAction) => "2. 记录动作状态（3秒）",
            (Language::Chinese, UiText::ConnectStreamFirst) => "请先连接设备并开始采集。",
            (Language::Chinese, UiText::Loading) => "处理中...",
            (Language::Chinese, UiText::Sensitivity) => "敏感度",
            (Language::Chinese, UiText::Smoothness) => "平滑度",
            (Language::Chinese, UiText::Window) => "窗口长度",
            (Language::Chinese, UiText::Window30) => "30秒",
            (Language::Chinese, UiText::Window60) => "60秒",
            (Language::Chinese, UiText::TabWaveform) => "波形",
            (Language::Chinese, UiText::TabSpectrum) => "频谱",
            (Language::Chinese, UiText::TabPng) => "导出 PNG",
            (Language::Chinese, UiText::TabCalibration) => "校准",
            (Language::Chinese, UiText::PortLabel) => "串口：",
            (Language::Chinese, UiText::RefreshPorts) => "刷新",
            (Language::Chinese, UiText::PortsScanned) => "已扫描端口：",
            (Language::Chinese, UiText::InjectArtifact) => "注入伪迹",
            (Language::Chinese, UiText::ReportFeedback) => "报告反馈",
            (Language::Chinese, UiText::ThemeLight) => "☀️",
            (Language::Chinese, UiText::ThemeDark) => "🌙",
            (Language::Chinese, UiText::LanguageSwitch) => "语言",
        }
    }

    /// The default label for a new recording in this language.
    pub fn default_record_label(&self) -> (r: &'static str)
        ensures
            *self == Language::English ==> r@ == "Attack"@,
            *self == Language::Chinese ==> r@ == "攻击"@,
    {
        match self {
            Language::English => "Attack",
            Language::Chinese => "攻击",
        }
    }
}

} // verus!

//! The platform the program runs on, and what it offers.

use vstd::prelude::*;
use vstd::string::StringExecFns;
use crate::text::str_equal;
use crate::text::string_views;

verus! {

/// The platforms that are told apart.
#[derive(Clone, Copy, Debug, PartialEq, Eq, Structural)]
pub enum Platform {
    MacOS,
    Windows,
    Linux,
}

/// The platform for the operating-system name that the standard library
/// reports (`std::env::consts::OS`): macOS and Windows by their names, Linux
/// for every other name.
pub open spec fn platform_of(os: Seq<char>) -> Platform {
    if os == "macos"@ {
        Platform::MacOS
    } else if os == "windows"@ {
        Platform::Windows
    } else {
        Platform::Linux
    }
}

/// The platform for the operating-system name `os`.
pub fn get_current_platform(os: &str) -> (platform: Platform)
    ensures
        platform == platform_of(os@),
{
    if str_equal(os, "macos") {
        Platform::MacOS
    } else if str_equal(os, "windows") {
        Platform::Windows
    } else {
        Platform::Linux
    }
}

/// The name of a platform, as its `Debug` form prints it.
pub open spec fn platform_name(platform: Platform) -> Seq<char> {
    match platform {
        Platform::MacOS => "MacOS"@,
        Platform::Windows => "Windows"@,
        Platform::Linux => "Linux"@,
    }
}

/// The lines that describe a platform: the platform's name, a heading, and
/// three features.
pub open spec fn platform_report(platform: Platform) -> Seq<Seq<char>> {
    match platform {
        Platform::MacOS => seq![
            "当前运行平台: "@ + platform_name(platform),
            "macOS 平台特性:"@,
            "  - 支持 NSPanel 和 NSWindow"@,
            "  - 支持 Cocoa 原生窗口操作"@,
            "  - 支持多桌面空间"@,
        ],
        Platform::Windows => seq![
            "当前运行平台: "@ + platform_name(platform),
            "Windows 平台特性:"@,
            "  - 支持 Win32 窗口操作"@,
            "  - 支持系统任务栏集成"@,
            "  - 支持 DWM 合成窗口管理器"@,
        ],
        Platform::Linux => seq![
            "当前运行平台: "@ + platform_name(platform),
            "Linux 平台特性:"@,
            "  - 支持 X11/Wayland 窗口系统"@,
            "  - 支持多种窗口管理器"@,
            "  - 支持桌面环境集成"@,
        ],
    }
}

/// The five lines given as strings.
fn report_lines(name: &str, heading: &str, first: &str, second: &str, third: &str) -> (lines: Vec<
    String,
>)
    ensures
        string_views(lines@) == seq![
            "当前运行平台: "@ + name@,
            heading@,
            first@,
            second@,
            third@,
        ],
{
    let mut lines: Vec<String> = Vec::new();
    lines.push(String::from_str("当前运行平台: ").concat(name));
    lines.push(String::from_str(heading));
    lines.push(String::from_str(first));
    lines.push(String::from_str(second));
    lines.push(String::from_str(third));
    proof {
        assert(string_views(lines@) =~= seq![
            "当前运行平台: "@ + name@,
            heading@,
            first@,
            second@,
            third@,
        ]);
    }
    lines
}

/// The lines to log about the platform for the operating-system name `os`.
/// The caller writes them to its log, in order.
pub fn log_platform_info(os: &str) -> (lines: Vec<String>)
    ensures
        string_views(lines@) == platform_report(platform_of(os@)),
{
    match get_current_platform(os) {
        Platform::MacOS => report_lines(
            "MacOS",
            "macOS 平台特性:",
            "  - 支持 NSPanel 和 NSWindow",
            "  - 支持 Cocoa 原生窗口操作",
            "  - 支持多桌面空间",
        ),
        Platform::Windows => report_lines(
            "Windows",
            "Windows 平台特性:",
            "  - 支持 Win32 窗口操作",
            "  - 支持系统任务栏集成",
            "  - 支持 DWM 合成窗口管理器",
        ),
        Platform::Linux => report_lines(
            "Linux",
            "Linux 平台特性:",
            "  - 支持 X11/Wayland 窗口系统",
            "  - 支持多种窗口管理器",
            "  - 支持桌面环境集成",
        ),
    }
}

} // verus!

//! Non-activating panels: windows that are shown without taking the focus.

use vstd::prelude::*;
use vstd::string::StringExecFns;
use crate::platform::Platform;
use crate::text::string_views;

verus! {

/// The lines that report the set-up of the window `window_name` as a
/// non-activating panel.  Only macOS has such panels: there the window relies
/// on its configuration and on the focus handler; elsewhere the step is
/// skipped.
pub open spec fn panel_report(window_name: Seq<char>, platform: Platform) -> Seq<Seq<char>> {
    if platform == Platform::MacOS {
        seq![
            "开始配置 "@ + window_name + " 为无焦点模式..."@,
            window_name + " 使用配置文件中的无焦点设置"@,
            window_name + " 依赖事件处理器自动恢复焦点"@,
            window_name + " 无焦点配置完成"@,
        ]
    } else {
        seq![
            "非 macOS 平台，跳过 "@ + window_name + " 无焦点设置"@,
            window_name + " 无焦点配置完成"@,
        ]
    }
}

/// Sets the window `window_name` up as a non-activating panel.  Nothing has
/// to be done to the window itself, so this always succeeds; the result holds
/// the lines for the caller's log, in order.
pub fn setup_nonactivating_panel(window_name: &str, platform: Platform) -> (result: Result<
    Vec<String>,
    String,
>)
    ensures
        result is Ok,
        string_views(result->Ok_0@) == panel_report(window_name@, platform),
{
    let mut lines: Vec<String> = Vec::new();
    match platform {
        Platform::MacOS => {
            lines.push(String::from_str("开始配置 ").concat(window_name).concat(" 为无焦点模式..."));
            lines.push(String::from_str(window_name).concat(" 使用配置文件中的无焦点设置"));
            lines.push(String::from_str(window_name).concat(" 依赖事件处理器自动恢复焦点"));
            lines.push(String::from_str(window_name).concat(" 无焦点配置完成"));
            proof {
                assert(string_views(lines@) =~= panel_report(window_name@, platform));
            }
        },
        _ => {
            lines.push(
                String::from_str("非 macOS 平台，跳过 ").concat(window_name).concat(" 无焦点设置"),
            );
            lines.push(String::from_str(window_name).concat(" 无焦点配置完成"));
            proof {
                assert(string_views(lines@) =~= panel_report(window_name@, platform));
            }
        },
    }
    Ok(lines)
}

} // verus!

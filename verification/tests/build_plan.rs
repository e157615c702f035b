use zerolaunch::build_plan::{
    collect_build_targets, expand_architecture, generate_installer_name, installer_build_args,
    is_portable_main_exe, is_portable_zip, portable_build_args, portable_zip_name, print_build_plan,
    AiMode, AiProfile, Architecture, BuildKind, BuildTarget, TargetArch,
};

#[test]
fn target_arch_names() {
    assert_eq!(TargetArch::X86_64.triple(), "x86_64-pc-windows-msvc");
    assert_eq!(TargetArch::AArch64.triple(), "aarch64-pc-windows-msvc");
    assert_eq!(TargetArch::X86_64.label(), "x64");
    assert_eq!(TargetArch::AArch64.label(), "arm64");
    assert_eq!(TargetArch::X86_64.display(), "x64");
    assert_eq!(TargetArch::AArch64.display(), "ARM64");
}

#[test]
fn ai_mode_and_profile() {
    assert!(AiMode::Enabled.is_enabled());
    assert!(!AiMode::Disabled.is_enabled());
    assert_eq!(AiMode::Enabled.display(), "启用 AI");
    assert_eq!(AiMode::Disabled.display(), "关闭 AI");
    assert_eq!(AiProfile::Enabled.modes(), vec![AiMode::Enabled]);
    assert_eq!(AiProfile::Disabled.modes(), vec![AiMode::Disabled]);
    assert_eq!(AiProfile::Both.modes(), vec![AiMode::Disabled, AiMode::Enabled]);
}

#[test]
fn build_kind_labels() {
    assert_eq!(BuildKind::Installer.description(), "安装包");
    assert_eq!(BuildKind::Portable.description(), "便携版");
    assert_eq!(BuildKind::Installer.item_label(), "安装包");
    assert_eq!(BuildKind::Portable.item_label(), "便携包");
}

#[test]
fn architecture_expansion() {
    assert_eq!(expand_architecture(&Architecture::X64), vec![TargetArch::X86_64]);
    assert_eq!(expand_architecture(&Architecture::Arm64), vec![TargetArch::AArch64]);
    assert_eq!(expand_architecture(&Architecture::All), vec![TargetArch::X86_64, TargetArch::AArch64]);
}

#[test]
fn targets_are_architecture_major() {
    let t = collect_build_targets(&Architecture::All, &[AiMode::Disabled, AiMode::Enabled]);
    assert_eq!(
        t,
        vec![
            BuildTarget { arch: TargetArch::X86_64, ai_mode: AiMode::Disabled },
            BuildTarget { arch: TargetArch::X86_64, ai_mode: AiMode::Enabled },
            BuildTarget { arch: TargetArch::AArch64, ai_mode: AiMode::Disabled },
            BuildTarget { arch: TargetArch::AArch64, ai_mode: AiMode::Enabled },
        ]
    );
    assert!(collect_build_targets(&Architecture::X64, &[]).is_empty());
}

#[test]
fn lite_name_goes_before_version() {
    assert_eq!(
        generate_installer_name("zerolaunch-rs_1.2.3_x64-setup.exe", "1.2.3", AiMode::Disabled),
        "zerolaunch-rs_lite_1.2.3_x64-setup.exe"
    );
    assert_eq!(
        generate_installer_name("ZeroLaunch_1.2.3_x64_en-US.msi", "1.2.3", AiMode::Disabled),
        "ZeroLaunch_lite_1.2.3_x64_en-US.msi"
    );
}

#[test]
fn lite_name_goes_before_last_dot_without_version() {
    assert_eq!(generate_installer_name("app.setup.exe", "9.9", AiMode::Disabled), "app.setup_lite.exe");
}

#[test]
fn lite_name_goes_at_end_without_dot() {
    assert_eq!(generate_installer_name("installer", "9.9", AiMode::Disabled), "installer_lite");
}

#[test]
fn lite_name_kept_when_marked_or_full() {
    assert_eq!(generate_installer_name("x_lite_1.0.exe", "1.0", AiMode::Disabled), "x_lite_1.0.exe");
    assert_eq!(generate_installer_name("x_1.0.exe", "1.0", AiMode::Enabled), "x_1.0.exe");
}

#[test]
fn lite_name_uses_first_version_marker_and_characters() {
    assert_eq!(generate_installer_name("安装_1.0_1.0.exe", "1.0", AiMode::Disabled), "安装_lite_1.0_1.0.exe");
}

#[test]
fn lite_name_is_idempotent() {
    for original in ["zerolaunch-rs_2.0_arm64-setup.exe", "a.b.c", "plain", "_2.0"] {
        let once = generate_installer_name(original, "2.0", AiMode::Disabled);
        let twice = generate_installer_name(&once, "2.0", AiMode::Disabled);
        assert_eq!(once, twice);
        assert!(once.contains("_lite"));
    }
}

#[test]
fn installer_plan_lines() {
    let targets = [BuildTarget { arch: TargetArch::X86_64, ai_mode: AiMode::Disabled }];
    assert_eq!(
        print_build_plan(BuildKind::Installer, &targets, "1.0"),
        vec![
            "📋 将构建以下 安装包:".to_string(),
            "  ▶️ 安装包 | 架构: x64 | 模式: 关闭 AI".to_string(),
            "      • zerolaunch-rs_lite_1.0_x64-setup.exe".to_string(),
            "      • ZeroLaunch_lite_1.0_x64_en-US.msi".to_string(),
        ]
    );
}

#[test]
fn portable_plan_lines() {
    let targets = [
        BuildTarget { arch: TargetArch::AArch64, ai_mode: AiMode::Enabled },
        BuildTarget { arch: TargetArch::X86_64, ai_mode: AiMode::Disabled },
    ];
    assert_eq!(
        print_build_plan(BuildKind::Portable, &targets, "0.5"),
        vec![
            "📋 将构建以下 便携版:".to_string(),
            "  ▶️ 便携包 | 架构: ARM64 | 模式: 启用 AI".to_string(),
            "      • ZeroLaunch-portable-0.5-arm64.zip".to_string(),
            "  ▶️ 便携包 | 架构: x64 | 模式: 关闭 AI".to_string(),
            "      • ZeroLaunch-portable-lite-0.5-x64.zip".to_string(),
        ]
    );
}

#[test]
fn empty_plan_warns() {
    assert_eq!(
        print_build_plan(BuildKind::Portable, &[], "0.5"),
        vec!["⚠️ 当前命令未匹配到任何 便携版 构建目标。".to_string()]
    );
}

#[test]
fn zip_names() {
    let full = BuildTarget { arch: TargetArch::X86_64, ai_mode: AiMode::Enabled };
    let lite = BuildTarget { arch: TargetArch::AArch64, ai_mode: AiMode::Disabled };
    assert_eq!(portable_zip_name(full, "3.1"), "ZeroLaunch-portable-3.1-x64.zip");
    assert_eq!(portable_zip_name(lite, "3.1"), "ZeroLaunch-portable-lite-3.1-arm64.zip");
}

#[test]
fn build_command_lines() {
    let full = BuildTarget { arch: TargetArch::X86_64, ai_mode: AiMode::Enabled };
    let lite = BuildTarget { arch: TargetArch::AArch64, ai_mode: AiMode::Disabled };
    assert_eq!(
        installer_build_args(full),
        vec!["bun", "run", "tauri", "build", "--target", "x86_64-pc-windows-msvc", "--", "--features", "ai"]
    );
    assert_eq!(installer_build_args(lite), vec!["bun", "run", "tauri", "build", "--target", "aarch64-pc-windows-msvc"]);
    assert_eq!(
        portable_build_args(full),
        vec![
            "bun", "run", "tauri", "build", "--config", "src-tauri/tauri.conf.portable.json", "--target",
            "x86_64-pc-windows-msvc", "--", "--features", "portable,ai"
        ]
    );
    assert_eq!(portable_build_args(lite).last().unwrap(), "portable");
}

#[test]
fn artifact_matching() {
    assert!(is_portable_main_exe("zerolaunch-rs"));
    assert!(is_portable_main_exe("mylauncher"));
    assert!(is_portable_main_exe("app"));
    assert!(!is_portable_main_exe("apps"));
    assert!(!is_portable_main_exe("helper"));
    assert!(is_portable_zip("ZeroLaunch-portable-1.0-x64.zip"));
    assert!(is_portable_zip("ZeroLaunch-portable-lite-1.0-x64.zip"));
    assert!(!is_portable_zip("ZeroLaunch-portable-1.0-x64.7z"));
    assert!(!is_portable_zip("zerolaunch-portable-1.0-x64.zip"));
}

#[test]
fn installer_copies_and_stale_names() {
    let c = zerolaunch::build_plan::installer_destination("ZeroLaunch_2.0_x64_en-US.msi", "2.0", AiMode::Disabled);
    assert_eq!(c.dest_name, "ZeroLaunch_lite_2.0_x64_en-US.msi");
    assert!(c.remove_full_copy);
    let c = zerolaunch::build_plan::installer_destination("ZeroLaunch_2.0_x64_en-US.msi", "2.0", AiMode::Enabled);
    assert_eq!(c.dest_name, "ZeroLaunch_2.0_x64_en-US.msi");
    assert!(!c.remove_full_copy);
    assert_eq!(
        zerolaunch::build_plan::stale_lite_installer_name("zerolaunch-rs_2.0_x64-setup.exe", "2.0"),
        Some("zerolaunch-rs_lite_2.0_x64-setup.exe".to_string())
    );
    assert_eq!(zerolaunch::build_plan::stale_lite_installer_name("zerolaunch-rs_lite_2.0_x64-setup.exe", "2.0"), None);
}

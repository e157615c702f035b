//! Planning of release builds: which targets a command builds, the command
//! lines that build them, and the names that the produced artifacts get.
use vstd::prelude::*;
use crate::text::{
    contains_seq, contains_str, ends_with, ends_with_str, find_str, is_first_occurrence,
    is_last_index_of, occurs_at, rfind_char, starts_with, starts_with_str, str_eq, substring,
};

verus! {

/// The architecture selection a build command is given.
#[derive(Clone, Copy, Debug, PartialEq, Eq, Structural)]
pub enum Architecture {
    /// x86_64
    X64,
    /// ARM64
    Arm64,
    /// every architecture
    All,
}

/// One architecture that is built.
#[derive(Clone, Copy, Debug, PartialEq, Eq, Structural)]
pub enum TargetArch {
    X86_64,
    AArch64,
}

pub open spec fn triple_of(a: TargetArch) -> Seq<char> {
    match a {
        TargetArch::X86_64 => "x86_64-pc-windows-msvc"@,
        TargetArch::AArch64 => "aarch64-pc-windows-msvc"@,
    }
}

pub open spec fn label_of(a: TargetArch) -> Seq<char> {
    match a {
        TargetArch::X86_64 => "x64"@,
        TargetArch::AArch64 => "arm64"@,
    }
}

pub open spec fn arch_display_of(a: TargetArch) -> Seq<char> {
    match a {
        TargetArch::X86_64 => "x64"@,
        TargetArch::AArch64 => "ARM64"@,
    }
}

impl TargetArch {
    /// The compiler target triple.
    pub fn triple(self) -> (r: &'static str)
        ensures
            r@ == triple_of(self),
    {
        match self {
            TargetArch::X86_64 => "x86_64-pc-windows-msvc",
            TargetArch::AArch64 => "aarch64-pc-windows-msvc",
        }
    }

    /// The short label used in artifact names.
    pub fn label(self) -> (r: &'static str)
        ensures
            r@ == label_of(self),
    {
        match self {
            TargetArch::X86_64 => "x64",
            TargetArch::AArch64 => "arm64",
        }
    }

    /// The name shown to the user.
    pub fn display(self) -> (r: &'static str)
        ensures
            r@ == arch_display_of(self),
    {
        match self {
            TargetArch::X86_64 => "x64",
            TargetArch::AArch64 => "ARM64",
        }
    }
}

/// Whether a build carries the AI features.
#[derive(Clone, Copy, Debug, PartialEq, Eq, Structural)]
pub enum AiMode {
    /// full build with AI features
    Enabled,
    /// lite build without AI features
    Disabled,
}

pub open spec fn ai_display_of(m: AiMode) -> Seq<char> {
    match m {
        AiMode::Enabled => "启用 AI"@,
        AiMode::Disabled => "关闭 AI"@,
    }
}

impl AiMode {
    pub fn is_enabled(self) -> (r: bool)
        ensures
            r == (self == AiMode::Enabled),
    {
        matches!(self, AiMode::Enabled)
    }

    pub fn display(self) -> (r: &'static str)
        ensures
            r@ == ai_display_of(self),
    {
        match self {
            AiMode::Enabled => "启用 AI",
            AiMode::Disabled => "关闭 AI",
        }
    }
}

/// Which AI variants a command builds.
#[derive(Clone, Copy, Debug, PartialEq, Eq, Structural)]
pub enum AiProfile {
    /// only the full build
    Enabled,
    /// only the lite build
    Disabled,
    /// the lite build, then the full build
    Both,
}

pub open spec fn modes_of(p: AiProfile) -> Seq<AiMode> {
    match p {
        AiProfile::Enabled => seq![AiMode::Enabled],
        AiProfile::Disabled => seq![AiMode::Disabled],
        AiProfile::Both => seq![AiMode::Disabled, AiMode::Enabled],
    }
}

impl AiProfile {
    pub fn modes(self) -> (r: Vec<AiMode>)
        ensures
            r@ == modes_of(self),
    {
        let r = match self {
            AiProfile::Enabled => vec![AiMode::Enabled],
            AiProfile::Disabled => vec![AiMode::Disabled],
            AiProfile::Both => vec![AiMode::Disabled, AiMode::Enabled],
        };
        assert(r@ =~= modes_of(self));
        r
    }
}

/// One build: an architecture and an AI variant.
#[derive(Clone, Copy, Debug, PartialEq, Eq, Structural)]
pub struct BuildTarget {
    pub arch: TargetArch,
    pub ai_mode: AiMode,
}

/// The kind of artifact a build produces.
#[derive(Clone, Copy, Debug, PartialEq, Eq, Structural)]
pub enum BuildKind {
    Installer,
    Portable,
}

pub open spec fn description_of(k: BuildKind) -> Seq<char> {
    match k {
        BuildKind::Installer => "安装包"@,
        BuildKind::Portable => "便携版"@,
    }
}

pub open spec fn item_label_of(k: BuildKind) -> Seq<char> {
    match k {
        BuildKind::Installer => "安装包"@,
        BuildKind::Portable => "便携包"@,
    }
}

impl BuildKind {
    pub fn description(self) -> (r: &'static str)
        ensures
            r@ == description_of(self),
    {
        match self {
            BuildKind::Installer => "安装包",
            BuildKind::Portable => "便携版",
        }
    }

    pub fn item_label(self) -> (r: &'static str)
        ensures
            r@ == item_label_of(self),
    {
        match self {
            BuildKind::Installer => "安装包",
            BuildKind::Portable => "便携包",
        }
    }
}

pub open spec fn archs_of(a: Architecture) -> Seq<TargetArch> {
    match a {
        Architecture::X64 => seq![TargetArch::X86_64],
        Architecture::Arm64 => seq![TargetArch::AArch64],
        Architecture::All => seq![TargetArch::X86_64, TargetArch::AArch64],
    }
}

/// The architectures that a selection stands for.
pub fn expand_architecture(arch: &Architecture) -> (r: Vec<TargetArch>)
    ensures
        r@ == archs_of(*arch),
{
    let r = match arch {
        Architecture::X64 => vec![TargetArch::X86_64],
        Architecture::Arm64 => vec![TargetArch::AArch64],
        Architecture::All => vec![TargetArch::X86_64, TargetArch::AArch64],
    };
    assert(r@ =~= archs_of(*arch));
    r
}

/// Every pairing of an architecture with an AI variant, architecture-major.
pub open spec fn targets_of(archs: Seq<TargetArch>, modes: Seq<AiMode>) -> Seq<BuildTarget> {
    Seq::new(
        archs.len() * modes.len(),
        |k: int| BuildTarget { arch: archs[k / modes.len() as int], ai_mode: modes[k % modes.len() as int] },
    )
}

proof fn lemma_index_split(i: int, j: int, m: int)
    requires
        0 <= i,
        0 <= j < m,
    ensures
        (i * m + j) / m == i,
        (i * m + j) % m == j,
        0 <= i * m + j,
        i * m + j + 1 <= (i + 1) * m,
{
    assert((i * m + j) / m == i) by (nonlinear_arith)
        requires
            0 <= i,
            0 <= j < m,
    ;
    assert((i * m + j) % m == j) by (nonlinear_arith)
        requires
            0 <= i,
            0 <= j < m,
    ;
    assert(0 <= i * m + j && i * m + j + 1 <= (i + 1) * m) by (nonlinear_arith)
        requires
            0 <= i,
            0 <= j < m,
    ;
}

/// The builds a command runs: each architecture of `arch`, with each AI
/// variant of `ai_modes`, architecture-major.
pub fn collect_build_targets(arch: &Architecture, ai_modes: &[AiMode]) -> (r: Vec<BuildTarget>)
    ensures
        r@ == targets_of(archs_of(*arch), ai_modes@),
{
    let archs = expand_architecture(arch);
    let ghost m = ai_modes@.len() as int;
    let mut targets: Vec<BuildTarget> = Vec::new();
    let mut i: usize = 0;
    while i < archs.len()
        invariant
            archs@ == archs_of(*arch),
            archs@.len() <= 2,
            m == ai_modes@.len(),
            i <= archs.len(),
            targets@.len() == i * m,
            forall|k: int|
                0 <= k < i * m ==> #[trigger] targets@[k] == (BuildTarget {
                    arch: archs@[k / m],
                    ai_mode: ai_modes@[k % m],
                }),
        decreases archs.len() - i,
    {
        let mut j: usize = 0;
        while j < ai_modes.len()
            invariant
                archs@ == archs_of(*arch),
                archs@.len() <= 2,
                m == ai_modes@.len(),
                i < archs.len(),
                j <= ai_modes.len(),
                targets@.len() == i * m + j,
                forall|k: int|
                    0 <= k < i * m + j ==> #[trigger] targets@[k] == (BuildTarget {
                        arch: archs@[k / m],
                        ai_mode: ai_modes@[k % m],
                    }),
            decreases ai_modes.len() - j,
        {
            proof {
                lemma_index_split(i as int, j as int, m);
            }
            targets.push(BuildTarget { arch: archs[i], ai_mode: ai_modes[j] });
            j = j + 1;
        }
        proof {
            assert((i + 1) * m == i * m + m) by (nonlinear_arith);
        }
        i = i + 1;
    }
    assert(targets@ =~= targets_of(archs_of(*arch), ai_modes@));
    targets
}

// ---------------------------------------------------------------------------
// Artifact names

/// The name an installer gets: a full build keeps its name; a lite build
/// gets `_lite` before `_<version>`, else before the last `.`, else at the
/// end, unless the name already holds `_lite`.
pub open spec fn installer_name(original: Seq<char>, version: Seq<char>, ai_enabled: bool) -> Seq<char> {
    let marker = "_"@ + version;
    if ai_enabled || contains_seq(original, "_lite"@) {
        original
    } else if contains_seq(original, marker) {
        let i = choose|i: int| is_first_occurrence(original, marker, i);
        original.subrange(0, i) + "_lite"@ + original.subrange(i, original.len() as int)
    } else if exists|i: int| is_last_index_of(original, '.', i) {
        let i = choose|i: int| is_last_index_of(original, '.', i);
        original.subrange(0, i) + "_lite"@ + original.subrange(i, original.len() as int)
    } else {
        original + "_lite"@
    }
}

proof fn lemma_first_occurrence_unique(s: Seq<char>, pat: Seq<char>, i: int, j: int)
    requires
        is_first_occurrence(s, pat, i),
        is_first_occurrence(s, pat, j),
    ensures
        i == j,
{
}

/// An occurrence at `k` means there is a first occurrence, no later than `k`.
proof fn lemma_first_occurrence_exists(s: Seq<char>, pat: Seq<char>, k: int)
    requires
        occurs_at(s, pat, k),
    ensures
        exists|i: int| #![trigger occurs_at(s, pat, i)] i <= k && is_first_occurrence(s, pat, i),
    decreases k,
{
    if exists|j: int| 0 <= j < k && occurs_at(s, pat, j) {
        let j = choose|j: int| 0 <= j < k && occurs_at(s, pat, j);
        lemma_first_occurrence_exists(s, pat, j);
    } else {
        assert(is_first_occurrence(s, pat, k));
    }
}

proof fn lemma_last_index_unique(s: Seq<char>, c: char, i: int, j: int)
    requires
        is_last_index_of(s, c, i),
        is_last_index_of(s, c, j),
    ensures
        i == j,
{
}

/// Inserting `ins` at index `i` of `s` makes `ins` occur at `i`.
proof fn lemma_insert_occurs(s: Seq<char>, ins: Seq<char>, i: int)
    requires
        0 <= i <= s.len(),
    ensures
        occurs_at(s.subrange(0, i) + ins + s.subrange(i, s.len() as int), ins, i),
{
    let r = s.subrange(0, i) + ins + s.subrange(i, s.len() as int);
    assert(r.subrange(i, i + ins.len()) =~= ins);
}

/// The installer name for a build of AI variant `ai_mode` (see
/// [`installer_name`]).
pub fn generate_installer_name(original: &str, version: &str, ai_mode: AiMode) -> (r: String)
    ensures
        r@ == installer_name(original@, version@, ai_mode == AiMode::Enabled),
{
    if ai_mode.is_enabled() || contains_str(original, "_lite") {
        return String::from_str(original);
    }
    let mut version_marker = String::from_str("_");
    version_marker.append(version);
    let n = original.unicode_len();
    if let Some(idx) = find_str(original, version_marker.as_str()) {
        let mut renamed = substring(original, 0, idx);
        renamed.append("_lite");
        let tail = substring(original, idx, n);
        renamed.append(tail.as_str());
        proof {
            let marker = "_"@ + version@;
            let c = choose|i: int| is_first_occurrence(original@, marker, i);
            lemma_first_occurrence_unique(original@, marker, idx as int, c);
        }
        return renamed;
    }
    if let Some(dot_idx) = rfind_char(original, '.') {
        let mut renamed = substring(original, 0, dot_idx);
        renamed.append("_lite");
        let tail = substring(original, dot_idx, n);
        renamed.append(tail.as_str());
        proof {
            let c = choose|i: int| is_last_index_of(original@, '.', i);
            lemma_last_index_unique(original@, '.', dot_idx as int, c);
        }
        return renamed;
    }
    let mut renamed = String::from_str(original);
    renamed.append("_lite");
    renamed
}

/// A lite installer name holds `_lite`.
pub proof fn lemma_lite_name_marked(original: Seq<char>, version: Seq<char>)
    ensures
        contains_seq(installer_name(original, version, false), "_lite"@),
{
    let marker = "_"@ + version;
    let lite = "_lite"@;
    let r = installer_name(original, version, false);
    if contains_seq(original, lite) {
    } else if contains_seq(original, marker) {
        let k = choose|k: int| occurs_at(original, marker, k);
        lemma_first_occurrence_exists(original, marker, k);
        let i = choose|i: int| is_first_occurrence(original, marker, i);
        lemma_insert_occurs(original, lite, i);
    } else if exists|i: int| is_last_index_of(original, '.', i) {
        let i = choose|i: int| is_last_index_of(original, '.', i);
        lemma_insert_occurs(original, lite, i);
    } else {
        lemma_insert_occurs(original, lite, original.len() as int);
        assert(original.subrange(0, original.len() as int) + lite + original.subrange(
            original.len() as int,
            original.len() as int,
        ) =~= original + lite);
    }
}

/// Renaming an installer name a second time changes nothing.
pub proof fn lemma_installer_name_idempotent(original: Seq<char>, version: Seq<char>, ai_enabled: bool)
    ensures
        installer_name(installer_name(original, version, ai_enabled), version, ai_enabled)
            == installer_name(original, version, ai_enabled),
{
    if !ai_enabled {
        lemma_lite_name_marked(original, version);
    }
}

/// A full build keeps the installer name it was given.
pub proof fn lemma_full_build_keeps_name(original: Seq<char>, version: Seq<char>)
    ensures
        installer_name(original, version, true) == original,
{
}

/// The suffix that marks a lite portable package.
pub open spec fn portable_suffix(m: AiMode) -> Seq<char> {
    if m == AiMode::Enabled { ""@ } else { "-lite"@ }
}

/// The name of the portable zip of a build.
pub open spec fn portable_zip_name_of(t: BuildTarget, version: Seq<char>) -> Seq<char> {
    "ZeroLaunch-portable"@ + portable_suffix(t.ai_mode) + "-"@ + version + "-"@ + label_of(t.arch) + ".zip"@
}

/// The name of the portable zip of a build.
pub fn portable_zip_name(target: BuildTarget, version: &str) -> (r: String)
    ensures
        r@ == portable_zip_name_of(target, version@),
{
    let suffix = if target.ai_mode.is_enabled() { "" } else { "-lite" };
    let mut name = String::from_str("ZeroLaunch-portable");
    name.append(suffix);
    name.append("-");
    name.append(version);
    name.append("-");
    name.append(target.arch.label());
    name.append(".zip");
    name
}

/// The NSIS installer name of a build before AI renaming.
pub open spec fn nsis_base_name(t: BuildTarget, version: Seq<char>) -> Seq<char> {
    "zerolaunch-rs_"@ + version + "_"@ + label_of(t.arch) + "-setup.exe"@
}

/// The MSI installer name of a build before AI renaming.
pub open spec fn msi_base_name(t: BuildTarget, version: Seq<char>) -> Seq<char> {
    "ZeroLaunch_"@ + version + "_"@ + label_of(t.arch) + "_en-US.msi"@
}

fn nsis_base(target: BuildTarget, version: &str) -> (r: String)
    ensures
        r@ == nsis_base_name(target, version@),
{
    let mut name = String::from_str("zerolaunch-rs_");
    name.append(version);
    name.append("_");
    name.append(target.arch.label());
    name.append("-setup.exe");
    name
}

fn msi_base(target: BuildTarget, version: &str) -> (r: String)
    ensures
        r@ == msi_base_name(target, version@),
{
    let mut name = String::from_str("ZeroLaunch_");
    name.append(version);
    name.append("_");
    name.append(target.arch.label());
    name.append("_en-US.msi");
    name
}

/// A line of the plan that names one artifact.
pub open spec fn artifact_line(name: Seq<char>) -> Seq<char> {
    "      • "@ + name
}

/// The plan lines of one build.
pub open spec fn target_lines(kind: BuildKind, t: BuildTarget, version: Seq<char>) -> Seq<Seq<char>> {
    let head = "  ▶️ "@ + item_label_of(kind) + " | 架构: "@ + arch_display_of(t.arch) + " | 模式: "@
        + ai_display_of(t.ai_mode);
    match kind {
        BuildKind::Installer => seq![
            head,
            artifact_line(installer_name(nsis_base_name(t, version), version, t.ai_mode == AiMode::Enabled)),
            artifact_line(installer_name(msi_base_name(t, version), version, t.ai_mode == AiMode::Enabled)),
        ],
        BuildKind::Portable => seq![head, artifact_line(portable_zip_name_of(t, version))],
    }
}

/// The plan lines of a list of builds, in order.
pub open spec fn targets_lines(kind: BuildKind, ts: Seq<BuildTarget>, version: Seq<char>) -> Seq<Seq<char>>
    decreases ts.len(),
{
    if ts.len() == 0 {
        Seq::empty()
    } else {
        targets_lines(kind, ts.drop_last(), version) + target_lines(kind, ts.last(), version)
    }
}

/// The lines that announce a build plan.
pub open spec fn plan_lines(kind: BuildKind, ts: Seq<BuildTarget>, version: Seq<char>) -> Seq<Seq<char>> {
    if ts.len() == 0 {
        seq!["⚠️ 当前命令未匹配到任何 "@ + description_of(kind) + " 构建目标。"@]
    } else {
        seq!["📋 将构建以下 "@ + description_of(kind) + ":"@] + targets_lines(kind, ts, version)
    }
}

pub open spec fn string_views(v: Seq<String>) -> Seq<Seq<char>> {
    v.map_values(|s: String| s@)
}

fn target_plan_lines(kind: BuildKind, target: BuildTarget, version: &str) -> (r: Vec<String>)
    ensures
        string_views(r@) == target_lines(kind, target, version@),
{
    let mut head = String::from_str("  ▶️ ");
    head.append(kind.item_label());
    head.append(" | 架构: ");
    head.append(target.arch.display());
    head.append(" | 模式: ");
    head.append(target.ai_mode.display());
    let mut lines: Vec<String> = Vec::new();
    lines.push(head);
    match kind {
        BuildKind::Installer => {
            let base_nsis = nsis_base(target, version);
            let base_msi = msi_base(target, version);
            let final_nsis = generate_installer_name(base_nsis.as_str(), version, target.ai_mode);
            let final_msi = generate_installer_name(base_msi.as_str(), version, target.ai_mode);
            let mut l1 = String::from_str("      • ");
            l1.append(final_nsis.as_str());
            let mut l2 = String::from_str("      • ");
            l2.append(final_msi.as_str());
            lines.push(l1);
            lines.push(l2);
        },
        BuildKind::Portable => {
            let zip_name = portable_zip_name(target, version);
            let mut l1 = String::from_str("      • ");
            l1.append(zip_name.as_str());
            lines.push(l1);
        },
    }
    assert(string_views(lines@) =~= target_lines(kind, target, version@));
    lines
}

/// The lines that announce which artifacts a command will build, one
/// string per printed line.
pub fn print_build_plan(kind: BuildKind, targets: &[BuildTarget], version: &str) -> (r: Vec<String>)
    ensures
        string_views(r@) == plan_lines(kind, targets@, version@),
{
    let mut lines: Vec<String> = Vec::new();
    if targets.len() == 0 {
        let mut warning = String::from_str("⚠️ 当前命令未匹配到任何 ");
        warning.append(kind.description());
        warning.append(" 构建目标。");
        lines.push(warning);
        assert(string_views(lines@) =~= plan_lines(kind, targets@, version@));
        return lines;
    }
    let mut header = String::from_str("📋 将构建以下 ");
    header.append(kind.description());
    header.append(":");
    lines.push(header);
    let ghost head_view = seq!["📋 将构建以下 "@ + description_of(kind) + ":"@];
    assert(string_views(lines@) =~= head_view + targets_lines(kind, targets@.take(0), version@)) by {
        assert(targets@.take(0).len() == 0);
    }
    let mut i: usize = 0;
    while i < targets.len()
        invariant
            i <= targets@.len(),
            head_view == seq!["📋 将构建以下 "@ + description_of(kind) + ":"@],
            string_views(lines@) == head_view + targets_lines(kind, targets@.take(i as int), version@),
        decreases targets.len() - i,
    {
        let more = target_plan_lines(kind, targets[i], version);
        let ghost before = lines@;
        let mut k: usize = 0;
        while k < more.len()
            invariant
                k <= more@.len(),
                string_views(lines@) == string_views(before) + string_views(more@).take(k as int),
            decreases more.len() - k,
        {
            let ghost prev = lines@;
            lines.push(more[k].clone());
            proof {
                assert(string_views(lines@) =~= string_views(prev).push(more@[k as int]@));
                assert(string_views(more@).take(k + 1) =~= string_views(more@).take(k as int).push(more@[k as int]@));
                assert(string_views(lines@) =~= string_views(before) + string_views(more@).take(k + 1));
            }
            k = k + 1;
        }
        proof {
            assert(string_views(more@).take(more@.len() as int) =~= string_views(more@));
            assert(targets@.take(i + 1).drop_last() =~= targets@.take(i as int));
            assert(string_views(lines@) =~= head_view + targets_lines(kind, targets@.take(i + 1), version@));
        }
        i = i + 1;
    }
    assert(targets@.take(targets@.len() as int) =~= targets@);
    lines
}

// ---------------------------------------------------------------------------
// Command lines and artifact lookup

pub open spec fn installer_args_of(t: BuildTarget) -> Seq<Seq<char>> {
    let base = seq!["bun"@, "run"@, "tauri"@, "build"@, "--target"@, triple_of(t.arch)];
    if t.ai_mode == AiMode::Enabled {
        base + seq!["--"@, "--features"@, "ai"@]
    } else {
        base
    }
}

/// The command line that builds the installers of a build.
pub fn installer_build_args(target: BuildTarget) -> (r: Vec<String>)
    ensures
        string_views(r@) == installer_args_of(target),
{
    let mut args: Vec<String> = Vec::new();
    args.push(String::from_str("bun"));
    args.push(String::from_str("run"));
    args.push(String::from_str("tauri"));
    args.push(String::from_str("build"));
    args.push(String::from_str("--target"));
    args.push(String::from_str(target.arch.triple()));
    if target.ai_mode.is_enabled() {
        args.push(String::from_str("--"));
        args.push(String::from_str("--features"));
        args.push(String::from_str("ai"));
    }
    assert(string_views(args@) =~= installer_args_of(target));
    args
}

pub open spec fn portable_args_of(t: BuildTarget) -> Seq<Seq<char>> {
    seq![
        "bun"@,
        "run"@,
        "tauri"@,
        "build"@,
        "--config"@,
        "src-tauri/tauri.conf.portable.json"@,
        "--target"@,
        triple_of(t.arch),
        "--"@,
        "--features"@,
        if t.ai_mode == AiMode::Enabled { "portable,ai"@ } else { "portable"@ },
    ]
}

/// The command line that builds the portable executable of a build.
pub fn portable_build_args(target: BuildTarget) -> (r: Vec<String>)
    ensures
        string_views(r@) == portable_args_of(target),
{
    let mut args: Vec<String> = Vec::new();
    args.push(String::from_str("bun"));
    args.push(String::from_str("run"));
    args.push(String::from_str("tauri"));
    args.push(String::from_str("build"));
    args.push(String::from_str("--config"));
    args.push(String::from_str("src-tauri/tauri.conf.portable.json"));
    args.push(String::from_str("--target"));
    args.push(String::from_str(target.arch.triple()));
    args.push(String::from_str("--"));
    args.push(String::from_str("--features"));
    let features = if target.ai_mode.is_enabled() {
        String::from_str("portable,ai")
    } else {
        String::from_str("portable")
    };
    args.push(features);
    assert(string_views(args@) =~= portable_args_of(target));
    args
}

/// Whether an executable stem in the release directory is the launcher
/// itself rather than a helper.
pub fn is_portable_main_exe(file_stem: &str) -> (r: bool)
    ensures
        r == (contains_seq(file_stem@, "zero"@) || contains_seq(file_stem@, "launch"@) || file_stem@
            == "app"@),
{
    contains_str(file_stem, "zero") || contains_str(file_stem, "launch") || str_eq(file_stem, "app")
}

/// Whether a file in the working directory is a portable package that a
/// clean removes.
pub fn is_portable_zip(file_name: &str) -> (r: bool)
    ensures
        r == (starts_with(file_name@, "ZeroLaunch-portable-"@) && ends_with(file_name@, ".zip"@)),
{
    starts_with_str(file_name, "ZeroLaunch-portable-") && ends_with_str(file_name, ".zip")
}

/// Where an installer found in the bundle directory is copied to.
pub struct InstallerCopy {
    /// The name of the copy in the project root.
    pub dest_name: String,
    /// Whether a full-build installer of the same file name is removed from
    /// the project root first (for a lite build).
    pub remove_full_copy: bool,
}

/// The copy of an installer built with `ai_mode`: under its installer name
/// (see [`installer_name`]), replacing a full-build copy for a lite build.
pub fn installer_destination(file_name: &str, version: &str, ai_mode: AiMode) -> (r: InstallerCopy)
    ensures
        r.dest_name@ == installer_name(file_name@, version@, ai_mode == AiMode::Enabled),
        r.remove_full_copy == (ai_mode == AiMode::Disabled),
{
    InstallerCopy {
        dest_name: generate_installer_name(file_name, version, ai_mode),
        remove_full_copy: !ai_mode.is_enabled(),
    }
}

/// The lite-build name of an installer, when it differs from the name: the
/// further root file that a clean removes.
pub fn stale_lite_installer_name(file_name: &str, version: &str) -> (r: Option<String>)
    ensures
        match r {
            Some(n) => n@ == installer_name(file_name@, version@, false) && n@ != file_name@,
            None => installer_name(file_name@, version@, false) == file_name@,
        },
{
    let lite = generate_installer_name(file_name, version, AiMode::Disabled);
    if str_eq(lite.as_str(), file_name) {
        None
    } else {
        Some(lite)
    }
}

/// An occurrence stays an occurrence when text is put in front.
proof fn lemma_occurs_after_prefix(prefix: Seq<char>, s: Seq<char>, pat: Seq<char>, i: int)
    requires
        occurs_at(s, pat, i),
    ensures
        occurs_at(prefix + s, pat, i + prefix.len()),
{
    assert((prefix + s).subrange(i + prefix.len(), i + prefix.len() + pat.len()) =~= s.subrange(i, i + pat.len()));
}

/// The installer lines of a build plan name the files that the build of
/// the target is copied to: a full AI build lists its NSIS and MSI base
/// names unchanged, a lite build lists names marked `_lite`.
pub proof fn lemma_installer_plan_names(t: BuildTarget, version: Seq<char>)
    ensures
        target_lines(BuildKind::Installer, t, version).len() == 3,
        t.ai_mode == AiMode::Enabled ==> target_lines(BuildKind::Installer, t, version)[1] == "      • "@
            + nsis_base_name(t, version),
        t.ai_mode == AiMode::Enabled ==> target_lines(BuildKind::Installer, t, version)[2] == "      • "@
            + msi_base_name(t, version),
        t.ai_mode == AiMode::Disabled ==> contains_seq(target_lines(BuildKind::Installer, t, version)[1], "_lite"@),
        t.ai_mode == AiMode::Disabled ==> contains_seq(target_lines(BuildKind::Installer, t, version)[2], "_lite"@),
{
    if t.ai_mode == AiMode::Disabled {
        let n1 = installer_name(nsis_base_name(t, version), version, false);
        let n2 = installer_name(msi_base_name(t, version), version, false);
        lemma_lite_name_marked(nsis_base_name(t, version), version);
        lemma_lite_name_marked(msi_base_name(t, version), version);
        let i1 = choose|i: int| occurs_at(n1, "_lite"@, i);
        let i2 = choose|i: int| occurs_at(n2, "_lite"@, i);
        lemma_occurs_after_prefix("      • "@, n1, "_lite"@, i1);
        lemma_occurs_after_prefix("      • "@, n2, "_lite"@, i2);
    }
}

/// Every portable build runs with the portable configuration; the command
/// lines of the lite and the full build of one architecture differ only
/// in the last (features) argument.
pub proof fn lemma_portable_args_shape(t1: BuildTarget, t2: BuildTarget)
    ensures
        portable_args_of(t1).len() == 11,
        portable_args_of(t1)[4] == "--config"@,
        portable_args_of(t1)[5] == "src-tauri/tauri.conf.portable.json"@,
        portable_args_of(t1)[6] == "--target"@,
        portable_args_of(t1)[7] == triple_of(t1.arch),
        portable_args_of(t1)[9] == "--features"@,
        t1.arch == t2.arch ==> portable_args_of(t1).take(10) == portable_args_of(t2).take(10),
{
    if t1.arch == t2.arch {
        assert(portable_args_of(t1).take(10) =~= portable_args_of(t2).take(10));
    }
}

/// The installer command line of a full AI build is that of the lite build
/// of the same architecture with the AI feature switched on at the end.
pub proof fn lemma_installer_args_shape(t1: BuildTarget, t2: BuildTarget)
    requires
        t1.arch == t2.arch,
        t1.ai_mode == AiMode::Enabled,
        t2.ai_mode == AiMode::Disabled,
    ensures
        installer_args_of(t2).len() == 6,
        installer_args_of(t2)[5] == triple_of(t2.arch),
        installer_args_of(t1) == installer_args_of(t2) + seq!["--"@, "--features"@, "ai"@],
{
}

} // verus!

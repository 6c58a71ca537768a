//! What the application tells about the machine: processor, memory,
//! operating system and desktop.

use crate::text::{
    chars_of, contains, decimal, decimal_string, has_part, lowercase, text_of, to_lowercase,
};
use vstd::prelude::*;

verus! {

/// A mebibyte, in bytes.
pub const MEBIBYTE: u64 = 1048576;

/// `mb` mebibytes in tenths of a gibibyte, rounded to the nearest tenth; of
/// two tenths equally near, the even one.
pub open spec fn tenths_of_gb(mb: nat) -> nat {
    let whole: nat = (mb * 10) / 1024;
    let rest: nat = (mb * 10) % 1024;
    if rest > 512 || (rest == 512 && whole % 2 == 1) {
        whole + 1
    } else {
        whole
    }
}

/// `mb` mebibytes written in gibibytes with one decimal place.
pub open spec fn gb_text(mb: nat) -> Seq<char> {
    decimal(tenths_of_gb(mb) / 10) + seq!['.'] + decimal(tenths_of_gb(mb) % 10)
}

/// How much memory is in use, and of how much. Both amounts are counted in
/// whole mebibytes. Below 1024 mebibytes in all they are written as such
/// ("512 MB / 900 MB"), from there on in gibibytes with one decimal place
/// ("4.0 GB / 16.0 GB").
pub open spec fn memory_text(used_bytes: nat, total_bytes: nat) -> Seq<char> {
    let used_mb: nat = used_bytes / (MEBIBYTE as nat);
    let total_mb: nat = total_bytes / (MEBIBYTE as nat);
    if total_mb >= 1024 {
        gb_text(used_mb) + " GB / "@ + gb_text(total_mb) + " GB"@
    } else {
        decimal(used_mb) + " MB / "@ + decimal(total_mb) + " MB"@
    }
}

/// The processor's load and model in one line.
pub open spec fn cpu_text(usage: Seq<char>, name: Seq<char>) -> Seq<char> {
    usage + "% ("@ + name + ")"@
}

/// The words that tell a desktop, each with the desktop's name. Where several
/// stand in a text, the first of this list decides.
pub open spec fn desktop_keywords() -> Seq<(Seq<char>, Seq<char>)> {
    seq![
        ("kde"@, "KDE Plasma"@),
        ("plasmadesktop"@, "KDE Plasma"@),
        ("gnome"@, "GNOME"@),
        ("xfce"@, "Xfce"@),
        ("lxde"@, "LXDE"@),
        ("lxqt"@, "LXQt"@),
        ("cinnamon"@, "Cinnamon"@),
        ("mate"@, "MATE"@),
        ("budgie"@, "Budgie"@),
        ("deepin"@, "Deepin"@),
        ("sway"@, "Sway"@),
        ("hyprland"@, "Hyprland"@),
        ("i3"@, "i3"@),
        ("cosmic"@, "COSMIC"@),
        ("pantheon"@, "Pantheon"@),
    ]
}

/// The name that goes with the first word of `table` that stands in `lowered`.
pub open spec fn first_match(
    table: Seq<(Seq<char>, Seq<char>)>,
    lowered: Seq<char>,
) -> Option<Seq<char>>
    decreases table.len(),
{
    if table.len() == 0 {
        None
    } else if has_part(lowered, table[0].0) {
        Some(table[0].1)
    } else {
        first_match(table.drop_first(), lowered)
    }
}

/// The desktop that `raw` names, where `lowered` is `raw` in lowercase:
/// "Unknown" for an empty text, the name that goes with the first known word
/// in it, and the text itself where it holds none.
pub open spec fn desktop_name(raw: Seq<char>, lowered: Seq<char>) -> Seq<char> {
    if raw.len() == 0 {
        "Unknown"@
    } else {
        match first_match(desktop_keywords(), lowered) {
            Some(name) => name,
            None => raw,
        }
    }
}

/// The text that names the desktop: the session's current desktop where that
/// is known, even if empty, else the name of the desktop session, else nothing.
pub open spec fn desktop_variable(
    current_desktop: Option<Seq<char>>,
    desktop_session: Option<Seq<char>>,
) -> Seq<char> {
    match current_desktop {
        Some(text) => text,
        None => match desktop_session {
            Some(text) => text,
            None => Seq::empty(),
        },
    }
}

/// The desktop in use, told from the two variables of the session.
pub open spec fn desktop_environment(
    current_desktop: Option<Seq<char>>,
    desktop_session: Option<Seq<char>>,
) -> Seq<char> {
    let raw = desktop_variable(current_desktop, desktop_session);
    desktop_name(raw, lowercase(raw))
}

/// The text of `value`, or `fallback` where there is none.
pub open spec fn text_or(value: Option<String>, fallback: Seq<char>) -> Seq<char> {
    match value {
        Some(text) => text@,
        None => fallback,
    }
}

/// What was read from the machine, before anything is made of it.
#[derive(Debug)]
pub struct Readings {
    /// The model of the first processor, if there is a processor.
    pub cpu_brand: Option<String>,
    /// The load of all processors in percent, written with one decimal place.
    pub cpu_usage: String,
    /// The size of the memory in bytes.
    pub total_memory: u64,
    /// The memory in use, in bytes.
    pub used_memory: u64,
    /// The name of the operating system.
    pub os_name: Option<String>,
    /// The version of the operating system.
    pub os_version: Option<String>,
    /// The version of the kernel.
    pub kernel_version: Option<String>,
    /// The name of the machine.
    pub host_name: Option<String>,
}

/// A snapshot of the machine.
#[derive(Debug)]
pub struct SystemInfo {
    pub cpu_name: String,
    /// The load of all processors in percent, written with one decimal place.
    pub cpu_usage: String,
    pub cpu_info: String,
    pub total_memory: u64,
    pub used_memory: u64,
    pub memory_info: String,
    pub os_name: String,
    pub os_version: String,
    pub desktop_environment: String,
    pub kernel_version: String,
    pub hostname: String,
}

/// A snapshot with its texts as sequences of characters.
pub struct SystemInfoView {
    pub cpu_name: Seq<char>,
    pub cpu_usage: Seq<char>,
    pub cpu_info: Seq<char>,
    pub total_memory: u64,
    pub used_memory: u64,
    pub memory_info: Seq<char>,
    pub os_name: Seq<char>,
    pub os_version: Seq<char>,
    pub desktop_environment: Seq<char>,
    pub kernel_version: Seq<char>,
    pub hostname: Seq<char>,
}

impl View for SystemInfo {
    type V = SystemInfoView;

    open spec fn view(&self) -> SystemInfoView {
        SystemInfoView {
            cpu_name: self.cpu_name@,
            cpu_usage: self.cpu_usage@,
            cpu_info: self.cpu_info@,
            total_memory: self.total_memory,
            used_memory: self.used_memory,
            memory_info: self.memory_info@,
            os_name: self.os_name@,
            os_version: self.os_version@,
            desktop_environment: self.desktop_environment@,
            kernel_version: self.kernel_version@,
            hostname: self.hostname@,
        }
    }
}

impl Clone for SystemInfo {
    fn clone(&self) -> (r: SystemInfo)
        ensures
            r@ == self@,
    {
        SystemInfo {
            cpu_name: self.cpu_name.clone(),
            cpu_usage: self.cpu_usage.clone(),
            cpu_info: self.cpu_info.clone(),
            total_memory: self.total_memory,
            used_memory: self.used_memory,
            memory_info: self.memory_info.clone(),
            os_name: self.os_name.clone(),
            os_version: self.os_version.clone(),
            desktop_environment: self.desktop_environment.clone(),
            kernel_version: self.kernel_version.clone(),
            hostname: self.hostname.clone(),
        }
    }
}

/// The snapshot that `readings` and the two variables of the session give.
/// What the machine does not tell gets a stand-in: "Unknown CPU", "Linux",
/// "Unknown" for either version, "localhost".
pub open spec fn snapshot(
    readings: Readings,
    current_desktop: Option<Seq<char>>,
    desktop_session: Option<Seq<char>>,
) -> SystemInfoView {
    let cpu_name = text_or(readings.cpu_brand, "Unknown CPU"@);
    SystemInfoView {
        cpu_name,
        cpu_usage: readings.cpu_usage@,
        cpu_info: cpu_text(readings.cpu_usage@, cpu_name),
        total_memory: readings.total_memory,
        used_memory: readings.used_memory,
        memory_info: memory_text(readings.used_memory as nat, readings.total_memory as nat),
        os_name: text_or(readings.os_name, "Linux"@),
        os_version: text_or(readings.os_version, "Unknown"@),
        desktop_environment: desktop_environment(current_desktop, desktop_session),
        kernel_version: text_or(readings.kernel_version, "Unknown"@),
        hostname: text_or(readings.host_name, "localhost"@),
    }
}

impl SystemInfoView {
    /// The texts made for display say what the other fields hold.
    pub open spec fn consistent(self) -> bool {
        &&& self.cpu_info == cpu_text(self.cpu_usage, self.cpu_name)
        &&& self.memory_info == memory_text(self.used_memory as nat, self.total_memory as nat)
    }
}

/// The words that tell a desktop, each with the desktop's name.
fn desktop_table() -> (table: Vec<(&'static str, &'static str)>)
    ensures
        table@.len() == desktop_keywords().len(),
        forall|i: int|
            0 <= i < table@.len() ==> (#[trigger] table@[i]).0@ == desktop_keywords()[i].0
                && table@[i].1@ == desktop_keywords()[i].1,
{
    vec![
        ("kde", "KDE Plasma"),
        ("plasmadesktop", "KDE Plasma"),
        ("gnome", "GNOME"),
        ("xfce", "Xfce"),
        ("lxde", "LXDE"),
        ("lxqt", "LXQt"),
        ("cinnamon", "Cinnamon"),
        ("mate", "MATE"),
        ("budgie", "Budgie"),
        ("deepin", "Deepin"),
        ("sway", "Sway"),
        ("hyprland", "Hyprland"),
        ("i3", "i3"),
        ("cosmic", "COSMIC"),
        ("pantheon", "Pantheon"),
    ]
}

/// The desktop that `raw` names, where `lowered` is `raw` in lowercase.
pub fn classify_desktop(raw: &str, lowered: &str) -> (r: String)
    ensures
        r@ == desktop_name(raw@, lowered@),
{
    if raw.is_empty() {
        return String::from_str("Unknown");
    }
    let table = desktop_table();
    let text = chars_of(lowered);
    let mut i: usize = 0;
    assert(desktop_keywords().skip(0) =~= desktop_keywords());
    while i < table.len()
        invariant
            i <= table.len(),
            raw@.len() > 0,
            text@ == lowered@,
            table@.len() == desktop_keywords().len(),
            forall|k: int|
                0 <= k < table@.len() ==> (#[trigger] table@[k]).0@ == desktop_keywords()[k].0
                    && table@[k].1@ == desktop_keywords()[k].1,
            first_match(desktop_keywords(), lowered@) == first_match(
                desktop_keywords().skip(i as int),
                lowered@,
            ),
        decreases table.len() - i,
    {
        let word = chars_of(table[i].0);
        let ghost rest = desktop_keywords().skip(i as int);
        assert(rest[0] == desktop_keywords()[i as int]);
        assert(rest.drop_first() =~= desktop_keywords().skip(i + 1));
        if contains(text.as_slice(), word.as_slice()) {
            return String::from_str(table[i].1);
        }
        i += 1;
    }
    String::from_str(raw)
}

/// `mb` mebibytes written in gibibytes with one decimal place.
fn gigabytes(mb: u64) -> (r: String)
    requires
        mb <= u64::MAX / 1048576,
    ensures
        r@ == gb_text(mb as nat),
{
    let scaled: u64 = mb * 10;
    let whole: u64 = scaled / 1024;
    let rest: u64 = scaled % 1024;
    let tenths: u64 = if rest > 512 || (rest == 512 && whole % 2 == 1) {
        whole + 1
    } else {
        whole
    };
    let mut s = decimal_string(tenths / 10);
    s.append(".");
    s.append(decimal_string(tenths % 10).as_str());
    proof {
        reveal_strlit(".");
        assert("."@ =~= seq!['.']);
    }
    s
}

/// `sysinfo::System`: what the operating system tells of the machine.
#[verifier::external_type_specification]
#[verifier::external_body]
pub struct ExSystem(sysinfo::System);

/// `sysinfo::Cpu`: one processor of the machine.
#[verifier::external_type_specification]
#[verifier::external_body]
pub struct ExCpu(sysinfo::Cpu);

/// `System::new_all` of sysinfo reads everything it can from the machine.
/// Nothing is claimed of what it found.
pub assume_specification[ sysinfo::System::new_all ]() -> sysinfo::System;

/// `System::refresh_all` of sysinfo reads the machine again. Nothing is
/// claimed of what changed.
pub assume_specification[ sysinfo::System::refresh_all ](sys: &mut sysinfo::System);

/// `System::cpus` of sysinfo lists the processors that were found. Nothing is
/// claimed of their number.
pub assume_specification[ sysinfo::System::cpus ](sys: &sysinfo::System) -> &[sysinfo::Cpu];

/// `Cpu::brand` of sysinfo gives the processor's model as the machine names
/// it. Nothing is claimed of the text.
pub assume_specification[ sysinfo::Cpu::brand ](cpu: &sysinfo::Cpu) -> &str;

/// `System::total_memory` of sysinfo gives the size of the memory in bytes.
/// Nothing is claimed of the number.
pub assume_specification[ sysinfo::System::total_memory ](sys: &sysinfo::System) -> u64;

/// `System::used_memory` of sysinfo gives the memory in use, in bytes.
/// Nothing is claimed of the number.
pub assume_specification[ sysinfo::System::used_memory ](sys: &sysinfo::System) -> u64;

/// `System::name` of sysinfo gives the operating system's name, if the
/// machine tells it. Nothing is claimed of the text.
pub assume_specification[ sysinfo::System::name ]() -> Option<String>;

/// `System::os_version` of sysinfo gives the operating system's version, if
/// the machine tells it. Nothing is claimed of the text.
pub assume_specification[ sysinfo::System::os_version ]() -> Option<String>;

/// `System::kernel_version` of sysinfo gives the kernel's version, if the
/// machine tells it. Nothing is claimed of the text.
pub assume_specification[ sysinfo::System::kernel_version ]() -> Option<String>;

/// `System::host_name` of sysinfo gives the machine's name, if it has one.
/// Nothing is claimed of the text.
pub assume_specification[ sysinfo::System::host_name ]() -> Option<String>;

/// `System::global_cpu_usage` of sysinfo, the load of all processors in
/// percent, written with one decimal place. Nothing is claimed of the text.
#[verifier::external_body]
fn global_cpu_usage_text(sys: &sysinfo::System) -> String {
    format!("{:.1}", sys.global_cpu_usage())
}

/// The text of `value`, or `fallback` where there is none.
fn or_text(value: Option<String>, fallback: &str) -> (r: String)
    ensures
        r@ == text_or(value, fallback@),
{
    match value {
        Some(text) => text,
        None => String::from_str(fallback),
    }
}

impl SystemInfo {
    /// The snapshot that `readings` and the two variables of the session give.
    pub fn from_readings(
        readings: Readings,
        current_desktop: Option<&str>,
        desktop_session: Option<&str>,
    ) -> (info: SystemInfo)
        ensures
            info@ == snapshot(readings, text_of(current_desktop), text_of(desktop_session)),
    {
        let Readings {
            cpu_brand,
            cpu_usage,
            total_memory,
            used_memory,
            os_name,
            os_version,
            kernel_version,
            host_name,
        } = readings;
        let cpu_name = or_text(cpu_brand, "Unknown CPU");
        let mut cpu_info = cpu_usage.clone();
        cpu_info.append("% (");
        cpu_info.append(cpu_name.as_str());
        cpu_info.append(")");
        SystemInfo {
            cpu_name,
            cpu_usage,
            cpu_info,
            total_memory,
            used_memory,
            memory_info: SystemState::format_memory(used_memory, total_memory),
            os_name: or_text(os_name, "Linux"),
            os_version: or_text(os_version, "Unknown"),
            desktop_environment: SystemState::detect_desktop_environment(
                current_desktop,
                desktop_session,
            ),
            kernel_version: or_text(kernel_version, "Unknown"),
            hostname: or_text(host_name, "localhost"),
        }
    }
}

/// The machine as it was when last read.
pub struct SystemState {
    sys: sysinfo::System,
}

impl SystemState {
    /// How much memory is in use, and of how much.
    pub fn format_memory(used_bytes: u64, total_bytes: u64) -> (r: String)
        ensures
            r@ == memory_text(used_bytes as nat, total_bytes as nat),
    {
        let used_mb: u64 = used_bytes / MEBIBYTE;
        let total_mb: u64 = total_bytes / MEBIBYTE;
        if total_mb >= 1024 {
            let mut s = gigabytes(used_mb);
            s.append(" GB / ");
            s.append(gigabytes(total_mb).as_str());
            s.append(" GB");
            s
        } else {
            let mut s = decimal_string(used_mb);
            s.append(" MB / ");
            s.append(decimal_string(total_mb).as_str());
            s.append(" MB");
            s
        }
    }

    /// The desktop in use, told from the session's current desktop
    /// (`XDG_CURRENT_DESKTOP`) and the name of the desktop session
    /// (`DESKTOP_SESSION`), each absent where the session does not set it.
    pub fn detect_desktop_environment(
        current_desktop: Option<&str>,
        desktop_session: Option<&str>,
    ) -> (r: String)
        ensures
            r@ == desktop_environment(text_of(current_desktop), text_of(desktop_session)),
    {
        let raw: &str = match current_desktop {
            Some(text) => text,
            None => match desktop_session {
                Some(text) => text,
                None => "",
            },
        };
        proof {
            reveal_strlit("");
            assert(""@ =~= Seq::<char>::empty());
        }
        let lowered = to_lowercase(raw);
        classify_desktop(raw, lowered.as_str())
    }

    /// Reads the machine.
    pub fn new() -> SystemState {
        let mut sys = sysinfo::System::new_all();
        sys.refresh_all();
        SystemState { sys }
    }

    /// What the machine told when it was last read.
    pub fn readings(&self) -> Readings {
        let cpus = self.sys.cpus();
        let cpu_brand = if cpus.len() > 0 {
            Some(String::from_str(cpus[0].brand()))
        } else {
            None
        };
        Readings {
            cpu_brand,
            cpu_usage: global_cpu_usage_text(&self.sys),
            total_memory: self.sys.total_memory(),
            used_memory: self.sys.used_memory(),
            os_name: sysinfo::System::name(),
            os_version: sysinfo::System::os_version(),
            kernel_version: sysinfo::System::kernel_version(),
            host_name: sysinfo::System::host_name(),
        }
    }

    /// A snapshot of the machine. `current_desktop` and `desktop_session` are
    /// the session's variables `XDG_CURRENT_DESKTOP` and `DESKTOP_SESSION`,
    /// each absent where the session does not set it. Whatever the machine
    /// told, the two lines made for display say what the snapshot holds, and
    /// neither is empty.
    pub fn get_system_info(
        &self,
        current_desktop: Option<&str>,
        desktop_session: Option<&str>,
    ) -> (info: SystemInfo)
        ensures
            exists|readings: Readings|
                info@ == #[trigger] snapshot(
                    readings,
                    text_of(current_desktop),
                    text_of(desktop_session),
                ),
            info@.consistent(),
            info@.cpu_info.len() > 0,
            info@.memory_info.len() > 0,
            info@.desktop_environment == desktop_environment(
                text_of(current_desktop),
                text_of(desktop_session),
            ),
    {
        let readings = self.readings();
        proof {
            lemma_snapshot_empty_only_as_told(
                readings,
                text_of(current_desktop),
                text_of(desktop_session),
            );
        }
        SystemInfo::from_readings(readings, current_desktop, desktop_session)
    }

    /// Reads the machine again.
    pub fn refresh(&mut self) {
        self.sys.refresh_all();
    }
}

impl Default for SystemState {
    fn default() -> SystemState {
        SystemState::new()
    }
}

/// The memory line is never empty.
pub proof fn lemma_memory_text_not_empty(used_bytes: nat, total_bytes: nat)
    ensures
        memory_text(used_bytes, total_bytes).len() > 0,
{
    reveal_strlit(" MB");
    reveal_strlit(" GB");
}

/// The text of a reading is told, and empty.
pub open spec fn told_empty(value: Option<String>) -> bool {
    match value {
        Some(text) => text@.len() == 0,
        None => false,
    }
}

/// Whatever was read, the two lines made for display say what the snapshot
/// holds and are not empty, and the name of the processor, of the operating
/// system, of the kernel and of the machine is empty only where the machine
/// told an empty text.
pub proof fn lemma_snapshot_empty_only_as_told(
    readings: Readings,
    current_desktop: Option<Seq<char>>,
    desktop_session: Option<Seq<char>>,
)
    ensures
        ({
            let info = snapshot(readings, current_desktop, desktop_session);
            &&& info.consistent()
            &&& info.cpu_info.len() > 0
            &&& info.memory_info.len() > 0
            &&& info.cpu_name.len() == 0 <==> told_empty(readings.cpu_brand)
            &&& info.os_name.len() == 0 <==> told_empty(readings.os_name)
            &&& info.os_version.len() == 0 <==> told_empty(readings.os_version)
            &&& info.kernel_version.len() == 0 <==> told_empty(readings.kernel_version)
            &&& info.hostname.len() == 0 <==> told_empty(readings.host_name)
        }),
{
    lemma_memory_text_not_empty(readings.used_memory as nat, readings.total_memory as nat);
    reveal_strlit(")");
    reveal_strlit("Unknown CPU");
    reveal_strlit("Linux");
    reveal_strlit("Unknown");
    reveal_strlit("localhost");
}

} // verus!

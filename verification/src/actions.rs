//! The quick-win maintenance commands shown in the report and offered for
//! running after the interactive view closes.
use vstd::prelude::*;

use crate::text::{chars_of, contains, contains_exec};

verus! {

/// A single quick-win action entry.
#[derive(Debug, Clone, Copy)]
pub struct QuickWinCmd {
    /// Display category (groups items under headers).
    pub category: &'static str,
    /// Short label shown in lists and the report.
    pub label: &'static str,
    /// One-sentence description of what the command does.
    pub desc: &'static str,
    /// The shell command to execute.
    pub cmd: &'static str,
}

pub struct QuickWinView {
    pub category: Seq<char>,
    pub label: Seq<char>,
    pub desc: Seq<char>,
    pub cmd: Seq<char>,
}

impl View for QuickWinCmd {
    type V = QuickWinView;

    open spec fn view(&self) -> QuickWinView {
        QuickWinView { category: self.category@, label: self.label@, desc: self.desc@, cmd: self.cmd@ }
    }
}

pub open spec fn commands_view(cs: Seq<QuickWinCmd>) -> Seq<QuickWinView> {
    cs.map_values(|c: QuickWinCmd| c@)
}

/// The quick-win commands, grouped by category; user-space only, no
/// `sudo rm -rf` on system paths.
pub open spec fn quick_win_table() -> Seq<QuickWinView> {
    seq![
        QuickWinView { category: "Memory"@, label: "Purge inactive memory"@, desc: "Asks macOS to reclaim inactive/cached pages back to the free pool."@, cmd: "sudo purge"@ },
        QuickWinView { category: "Memory"@, label: "Top 10 memory hogs"@, desc: "Lists the 10 processes consuming the most resident memory right now."@, cmd: "ps -Arco pid,rss,comm | sort -k2 -rn | head -11"@ },
        QuickWinView { category: "Cache Cleanup"@, label: "Clear user cache folder"@, desc: "Removes stale app caches from ~/Library/Caches (user-space only; safe)."@, cmd: "rm -rf ~/Library/Caches/* 2>/dev/null; echo 'User cache cleared.'"@ },
        QuickWinView { category: "Cache Cleanup"@, label: "Clear Xcode derived data"@, desc: "Deletes Xcode build artifacts — reclaims several GBs. Xcode rebuilds on next build."@, cmd: "rm -rf ~/Library/Developer/Xcode/DerivedData && echo 'DerivedData cleared.'"@ },
        QuickWinView { category: "Cache Cleanup"@, label: "Clear crash & diagnostic reports"@, desc: "Removes old .crash and .ips files from your user diagnostic logs."@, cmd: "rm -f ~/Library/Logs/DiagnosticReports/*.crash ~/Library/Logs/DiagnosticReports/*.ips 2>/dev/null; echo 'Crash reports cleared.'"@ },
        QuickWinView { category: "Cache Cleanup"@, label: "Rebuild font cache (restart fontd)"@, desc: "Removes the font database then signals fontd to rebuild — fixes font glitches."@, cmd: "atsutil databases -remove; sudo killall -HUP fontd"@ },
        QuickWinView { category: "Disk & Storage"@, label: "Show disk usage"@, desc: "Prints free and used space for every mounted volume."@, cmd: "df -h"@ },
        QuickWinView { category: "Disk & Storage"@, label: "Find large files (>500 MB) in home"@, desc: "Searches your home folder for files bigger than 500 MB."@, cmd: "find ~ -size +500M -not -path '*/.*' 2>/dev/null"@ },
        QuickWinView { category: "Disk & Storage"@, label: "Largest user directories"@, desc: "Shows sizes of Desktop, Downloads, Documents, Movies, Music, Pictures."@, cmd: "du -sh ~/Desktop ~/Downloads ~/Documents ~/Movies ~/Music ~/Pictures 2>/dev/null | sort -rh | head -10"@ },
        QuickWinView { category: "Disk & Storage"@, label: "Remove .DS_Store files in home"@, desc: "Deletes macOS metadata files scattered across your home folder."@, cmd: "find ~ -name '.DS_Store' -delete 2>/dev/null; echo '.DS_Store files removed.'"@ },
        QuickWinView { category: "Disk & Storage"@, label: "List Time Machine local snapshots"@, desc: "Shows local TM snapshots that may be consuming significant disk space."@, cmd: "tmutil listlocalsnapshots /"@ },
        QuickWinView { category: "Network"@, label: "Flush DNS cache"@, desc: "Clears the local DNS resolver cache and restarts mDNSResponder."@, cmd: "sudo dscacheutil -flushcache; sudo killall -HUP mDNSResponder"@ },
        QuickWinView { category: "Network"@, label: "Show active TCP connections"@, desc: "Lists all established connections with PIDs and remote addresses."@, cmd: "lsof -i -P -n | grep ESTABLISHED"@ },
        QuickWinView { category: "System Maintenance"@, label: "Run daily maintenance scripts"@, desc: "Executes Apple's built-in daily cleanup (log rotation, tmp cleanup)."@, cmd: "sudo periodic daily"@ },
        QuickWinView { category: "System Maintenance"@, label: "Run weekly maintenance scripts"@, desc: "Executes Apple's weekly tasks (rebuild locate database, etc.)."@, cmd: "sudo periodic weekly"@ },
        QuickWinView { category: "System Maintenance"@, label: "Rebuild Spotlight index"@, desc: "Erases and re-indexes Spotlight metadata for the entire boot volume."@, cmd: "sudo mdutil -E /"@ },
        QuickWinView { category: "System Maintenance"@, label: "Rebuild Launch Services database"@, desc: "Resets Open With menus and document associations. Fixes 'wrong app opens' issues."@, cmd: "sudo /System/Library/Frameworks/CoreServices.framework/Versions/A/Frameworks/LaunchServices.framework/Versions/A/Support/lsregister -kill -r -domain local -domain system -domain user"@ },
        QuickWinView { category: "System Maintenance"@, label: "Verify disk (First Aid read-only)"@, desc: "Runs diskutil read-only integrity check on the boot volume — no changes made."@, cmd: "diskutil verifyVolume /"@ },
        QuickWinView { category: "Developer Tools"@, label: "Homebrew cleanup"@, desc: "Removes outdated packages, caches, and old formula versions from Homebrew."@, cmd: "brew cleanup --prune=all"@ },
        QuickWinView { category: "Developer Tools"@, label: "Homebrew doctor"@, desc: "Checks your Homebrew installation for common problems and misconfigurations."@, cmd: "brew doctor"@ },
        QuickWinView { category: "Developer Tools"@, label: "Clear npm cache"@, desc: "Forcefully removes the npm cache (~/.npm). npm rebuilds it as needed."@, cmd: "npm cache clean --force"@ },
        QuickWinView { category: "Developer Tools"@, label: "Clear pip / pip3 cache"@, desc: "Removes cached pip wheel files to free disk space."@, cmd: "pip cache purge 2>/dev/null || pip3 cache purge 2>/dev/null; echo 'pip cache cleared.'"@ },
        QuickWinView { category: "Utilities"@, label: "Battery health info"@, desc: "Shows cycle count, condition, and maximum capacity of your battery."@, cmd: "system_profiler SPPowerDataType | grep -E 'Cycle Count|Condition|Maximum Capacity'"@ },
        QuickWinView { category: "Utilities"@, label: "Open Disk Utility"@, desc: "Launches the macOS Disk Utility app for partition and repair operations."@, cmd: "open /System/Applications/Utilities/Disk\\ Utility.app"@ },
    ]
}

/// The quick-win commands shown in the report and offered in the interactive view.
pub fn quick_win_commands() -> (r: Vec<QuickWinCmd>)
    ensures
        commands_view(r@) == quick_win_table(),
{
    let r = vec![
        QuickWinCmd {
            category: "Memory",
            label: "Purge inactive memory",
            desc: "Asks macOS to reclaim inactive/cached pages back to the free pool.",
            cmd: "sudo purge",
        },
        QuickWinCmd {
            category: "Memory",
            label: "Top 10 memory hogs",
            desc: "Lists the 10 processes consuming the most resident memory right now.",
            cmd: "ps -Arco pid,rss,comm | sort -k2 -rn | head -11",
        },
        QuickWinCmd {
            category: "Cache Cleanup",
            label: "Clear user cache folder",
            desc: "Removes stale app caches from ~/Library/Caches (user-space only; safe).",
            cmd: "rm -rf ~/Library/Caches/* 2>/dev/null; echo 'User cache cleared.'",
        },
        QuickWinCmd {
            category: "Cache Cleanup",
            label: "Clear Xcode derived data",
            desc: "Deletes Xcode build artifacts — reclaims several GBs. Xcode rebuilds on next build.",
            cmd: "rm -rf ~/Library/Developer/Xcode/DerivedData && echo 'DerivedData cleared.'",
        },
        QuickWinCmd {
            category: "Cache Cleanup",
            label: "Clear crash & diagnostic reports",
            desc: "Removes old .crash and .ips files from your user diagnostic logs.",
            cmd: "rm -f ~/Library/Logs/DiagnosticReports/*.crash ~/Library/Logs/DiagnosticReports/*.ips 2>/dev/null; echo 'Crash reports cleared.'",
        },
        QuickWinCmd {
            category: "Cache Cleanup",
            label: "Rebuild font cache (restart fontd)",
            desc: "Removes the font database then signals fontd to rebuild — fixes font glitches.",
            cmd: "atsutil databases -remove; sudo killall -HUP fontd",
        },
        QuickWinCmd {
            category: "Disk & Storage",
            label: "Show disk usage",
            desc: "Prints free and used space for every mounted volume.",
            cmd: "df -h",
        },
        QuickWinCmd {
            category: "Disk & Storage",
            label: "Find large files (>500 MB) in home",
            desc: "Searches your home folder for files bigger than 500 MB.",
            cmd: "find ~ -size +500M -not -path '*/.*' 2>/dev/null",
        },
        QuickWinCmd {
            category: "Disk & Storage",
            label: "Largest user directories",
            desc: "Shows sizes of Desktop, Downloads, Documents, Movies, Music, Pictures.",
            cmd: "du -sh ~/Desktop ~/Downloads ~/Documents ~/Movies ~/Music ~/Pictures 2>/dev/null | sort -rh | head -10",
        },
        QuickWinCmd {
            category: "Disk & Storage",
            label: "Remove .DS_Store files in home",
            desc: "Deletes macOS metadata files scattered across your home folder.",
            cmd: "find ~ -name '.DS_Store' -delete 2>/dev/null; echo '.DS_Store files removed.'",
        },
        QuickWinCmd {
            category: "Disk & Storage",
            label: "List Time Machine local snapshots",
            desc: "Shows local TM snapshots that may be consuming significant disk space.",
            cmd: "tmutil listlocalsnapshots /",
        },
        QuickWinCmd {
            category: "Network",
            label: "Flush DNS cache",
            desc: "Clears the local DNS resolver cache and restarts mDNSResponder.",
            cmd: "sudo dscacheutil -flushcache; sudo killall -HUP mDNSResponder",
        },
        QuickWinCmd {
            category: "Network",
            label: "Show active TCP connections",
            desc: "Lists all established connections with PIDs and remote addresses.",
            cmd: "lsof -i -P -n | grep ESTABLISHED",
        },
        QuickWinCmd {
            category: "System Maintenance",
            label: "Run daily maintenance scripts",
            desc: "Executes Apple's built-in daily cleanup (log rotation, tmp cleanup).",
            cmd: "sudo periodic daily",
        },
        QuickWinCmd {
            category: "System Maintenance",
            label: "Run weekly maintenance scripts",
            desc: "Executes Apple's weekly tasks (rebuild locate database, etc.).",
            cmd: "sudo periodic weekly",
        },
        QuickWinCmd {
            category: "System Maintenance",
            label: "Rebuild Spotlight index",
            desc: "Erases and re-indexes Spotlight metadata for the entire boot volume.",
            cmd: "sudo mdutil -E /",
        },
        QuickWinCmd {
            category: "System Maintenance",
            label: "Rebuild Launch Services database",
            desc: "Resets Open With menus and document associations. Fixes 'wrong app opens' issues.",
            cmd: "sudo /System/Library/Frameworks/CoreServices.framework/Versions/A/Frameworks/LaunchServices.framework/Versions/A/Support/lsregister -kill -r -domain local -domain system -domain user",
        },
        QuickWinCmd {
            category: "System Maintenance",
            label: "Verify disk (First Aid read-only)",
            desc: "Runs diskutil read-only integrity check on the boot volume — no changes made.",
            cmd: "diskutil verifyVolume /",
        },
        QuickWinCmd {
            category: "Developer Tools",
            label: "Homebrew cleanup",
            desc: "Removes outdated packages, caches, and old formula versions from Homebrew.",
            cmd: "brew cleanup --prune=all",
        },
        QuickWinCmd {
            category: "Developer Tools",
            label: "Homebrew doctor",
            desc: "Checks your Homebrew installation for common problems and misconfigurations.",
            cmd: "brew doctor",
        },
        QuickWinCmd {
            category: "Developer Tools",
            label: "Clear npm cache",
            desc: "Forcefully removes the npm cache (~/.npm). npm rebuilds it as needed.",
            cmd: "npm cache clean --force",
        },
        QuickWinCmd {
            category: "Developer Tools",
            label: "Clear pip / pip3 cache",
            desc: "Removes cached pip wheel files to free disk space.",
            cmd: "pip cache purge 2>/dev/null || pip3 cache purge 2>/dev/null; echo 'pip cache cleared.'",
        },
        QuickWinCmd {
            category: "Utilities",
            label: "Battery health info",
            desc: "Shows cycle count, condition, and maximum capacity of your battery.",
            cmd: "system_profiler SPPowerDataType | grep -E 'Cycle Count|Condition|Maximum Capacity'",
        },
        QuickWinCmd {
            category: "Utilities",
            label: "Open Disk Utility",
            desc: "Launches the macOS Disk Utility app for partition and repair operations.",
            cmd: "open /System/Applications/Utilities/Disk\\ Utility.app",
        },
    ];
    assert(commands_view(r@) =~= quick_win_table());
    r
}

/// Some selected command runs `sudo`.
pub open spec fn selection_needs_sudo(cs: Seq<QuickWinView>, indices: Seq<usize>) -> bool {
    exists|i: int| 0 <= i < indices.len() && contains(cs[indices[i] as int].cmd, "sudo"@)
}

/// Whether any of the selected commands runs `sudo` (so the terminal will
/// ask for an admin password).
pub fn needs_sudo(cmds: &Vec<QuickWinCmd>, indices: &Vec<usize>) -> (b: bool)
    requires
        forall|i: int| 0 <= i < indices@.len() ==> (#[trigger] indices@[i]) < cmds@.len(),
    ensures
        b == selection_needs_sudo(commands_view(cmds@), indices@),
{
    let sudo = chars_of("sudo");
    for i in 0..indices.len()
        invariant
            sudo@ == "sudo"@,
            forall|q: int| 0 <= q < indices@.len() ==> (#[trigger] indices@[q]) < cmds@.len(),
            forall|q: int| 0 <= q < i ==> !contains(commands_view(cmds@)[#[trigger] indices@[q] as int].cmd, "sudo"@),
    {
        let c = cmds[indices[i]];
        assert(commands_view(cmds@)[indices@[i as int] as int] == c@);
        if contains_exec(&chars_of(c.cmd), &sudo) {
            return true;
        }
    }
    false
}

} // verus!

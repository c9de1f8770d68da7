//! Progress of a batch run, as text.
//!
//! Nothing here writes to a terminal: each function hands back the line
//! that the caller is to write. Durations are milliseconds.

use crate::batch_processor::{spec_capped_time, spec_remaining_time, BatchStats};
use crate::clock::{elapsed_between, now_millis, spec_elapsed_between};
use crate::text::{
    decimal, decimal_text, hundredths, hundredths_text, repeated, repeated_text, rounded_ratio,
    rounded_ratio_of, spec_lines_of, tenths, tenths_text, thousandths, thousandths_text,
    three_digits, three_digits_text,
};
use vstd::prelude::*;

verus! {

/// Progress lines closer together than this many milliseconds are left out.
pub const UPDATE_INTERVAL: u64 = 100;

/// File names longer than this many characters are cut at the front.
pub const MAX_FILE_NAME: usize = 30;

/// The renderer of progress lines.
pub struct ProgressDisplay {
    /// Whether lines carry colour codes.
    pub colored: bool,
    /// How many characters the bar is wide.
    pub bar_width: usize,
    /// When the last line was handed out: a reading of the wall clock.
    pub last_update: i64,
    /// How far apart lines are at the least.
    pub update_interval: u64,
}

/// A duration in words: hours, minutes and seconds where it has hours;
/// minutes and seconds where it has minutes; seconds with thousandths where
/// it has seconds; milliseconds otherwise.
pub open spec fn spec_format_duration(duration: nat) -> Seq<char> {
    let total_seconds = duration / 1000;
    let hours = total_seconds / 3600;
    let minutes = (total_seconds % 3600) / 60;
    let seconds = total_seconds % 60;
    let millis = duration % 1000;
    if hours > 0 {
        decimal(hours) + "h "@ + decimal(minutes) + "m "@ + decimal(seconds) + "s"@
    } else if minutes > 0 {
        decimal(minutes) + "m "@ + decimal(seconds) + "s"@
    } else if seconds > 0 {
        decimal(seconds) + "."@ + three_digits(millis as int) + "s"@
    } else {
        decimal(millis) + "ms"@
    }
}

/// How many characters of a bar of `bar_width` are filled after `processed`
/// of `total` files: the same share of the bar, rounded down, and never more
/// than the bar.
pub open spec fn spec_filled_width(bar_width: nat, processed: nat, total: nat) -> nat {
    if total == 0 {
        0
    } else if processed >= total {
        bar_width
    } else {
        processed * bar_width / total
    }
}

/// The name of a file as a progress line shows it: names of more than
/// `MAX_FILE_NAME` characters keep their last 27 behind three dots.
pub open spec fn spec_display_name(name: Seq<char>) -> Seq<char> {
    if name.len() > MAX_FILE_NAME {
        "..."@ + name.subrange(name.len() - 27, name.len() as int)
    } else {
        name
    }
}

/// The bar of a progress line, with the share of files processed in percent
/// to one place.
pub open spec fn spec_bar(colored: bool, bar_width: nat, processed: nat, total: nat) -> Seq<char> {
    let filled = spec_filled_width(bar_width, processed, total);
    let share = tenths(rounded_ratio(processed, total, 1000));
    if colored {
        "\x1b[2K\x1b[32m\x1b[1m[\x1b[42m"@ + repeated("="@, filled) + "\x1b[0m\x1b[37m"@ + repeated(
            " "@,
            (bar_width - filled) as nat,
        ) + "\x1b[0m] "@ + share + "%"@
    } else {
        "["@ + repeated("="@, filled) + repeated(" "@, (bar_width - filled) as nat) + "] "@ + share
            + "%"@
    }
}

/// A whole progress line: the bar, the files processed out of all, the
/// speed in files per second to one place, the time that is left where it
/// is a second or more, and the file at hand where it has a name.
pub open spec fn spec_progress_line(
    colored: bool,
    bar_width: nat,
    stats: BatchStats,
    elapsed: nat,
    current_file: Seq<char>,
) -> Seq<char> {
    let left = spec_capped_time(
        spec_remaining_time(stats.total_files as int, stats.processed_files as int, elapsed as int),
    );
    spec_bar(colored, bar_width, stats.processed_files as nat, stats.total_files as nat) + " ("@
        + decimal(stats.processed_files as nat) + "/"@ + decimal(stats.total_files as nat)
        + ") 速度: "@ + tenths(rounded_ratio(stats.processed_files as nat, elapsed, 10_000))
        + " 文件/秒"@ + (if left >= 1000 {
        " ETA: "@ + spec_format_duration(left as nat)
    } else {
        Seq::<char>::empty()
    }) + (if current_file.len() > 0 {
        " | "@ + spec_display_name(current_file)
    } else {
        Seq::<char>::empty()
    })
}

/// A value under a label, the label in colour where the display is
/// coloured.
pub open spec fn spec_labelled(colored: bool, color: Seq<char>, label: Seq<char>, value: Seq<char>) -> Seq<
    char,
> {
    if colored {
        color + label + ":\x1b[0m "@ + value
    } else {
        label + ": "@ + value
    }
}

/// A title between rules, in bold colour where the display is coloured.
pub open spec fn spec_title(colored: bool, color: Seq<char>, title: Seq<char>) -> Seq<char> {
    if colored {
        color + "\x1b[1m=== "@ + title + " ===\x1b[0m"@
    } else {
        "=== "@ + title + " ==="@
    }
}

/// Yes or no.
pub open spec fn spec_yes_no(b: bool) -> Seq<char> {
    if b {
        "是"@
    } else {
        "否"@
    }
}

/// The lines that open a batch run: a title, the directory, the number of
/// files and whether directories below are walked, and a blank line.
pub open spec fn spec_start_info(colored: bool, directory: Seq<char>, total_files: nat, recursive: bool) -> Seq<
    Seq<char>,
> {
    seq![
        spec_title(colored, "\x1b[36m"@, "开始批量处理"@),
        spec_labelled(colored, "\x1b[33m"@, "目录"@, directory),
        spec_labelled(colored, "\x1b[33m"@, "文件数"@, decimal(total_files)),
        spec_labelled(colored, "\x1b[33m"@, "递归处理"@, spec_yes_no(recursive)),
        Seq::<char>::empty(),
    ]
}

/// The line that tells what became of one file: a tick, the name, and the
/// number of codes where the file was read; a cross and the name where it
/// was not; either way the seconds that it took, to three places.
pub open spec fn spec_file_result(
    colored: bool,
    file_name: Seq<char>,
    success: bool,
    qr_count: nat,
    processing_time: nat,
) -> Seq<char> {
    (if success {
        if colored {
            "\x1b[32m✓\x1b[0m "@
        } else {
            "✓ "@
        }
    } else {
        if colored {
            "\x1b[31m✗\x1b[0m "@
        } else {
            "✗ "@
        }
    }) + file_name + (if success {
        " - 解码 "@ + decimal(qr_count) + " 个二维码 ("@
    } else {
        " - 解码失败 ("@
    }) + thousandths(processing_time) + "s)"@
}

/// The colour of a success rate: green from nine files in ten, yellow from
/// seven in ten, red below.
pub open spec fn spec_rate_color(successful: nat, total: nat) -> Seq<char> {
    if total > 0 && successful * 10 >= total * 9 {
        "\x1b[32m"@
    } else if total > 0 && successful * 10 >= total * 7 {
        "\x1b[33m"@
    } else {
        "\x1b[31m"@
    }
}

/// The lines that close a batch run, `elapsed` milliseconds after it
/// began: a blank line and a title, the files in all and those that were
/// read, those that were not (in colour only where there are any), the codes
/// read, the files per second to two places, the time taken, and the share
/// of files that were read in percent to one place.
pub open spec fn spec_final_result(colored: bool, stats: BatchStats, elapsed: nat) -> Seq<Seq<char>> {
    let speed = hundredths(rounded_ratio(stats.processed_files as nat, elapsed, 100_000)) + " 文件/秒"@;
    let rate = tenths(rounded_ratio(stats.successful_files as nat, stats.total_files as nat, 1000))
        + "%"@;
    let head = seq![
        Seq::<char>::empty(),
        spec_title(colored, "\x1b[32m"@, "批量处理完成"@),
        spec_labelled(colored, "\x1b[36m"@, "总文件数"@, decimal(stats.total_files as nat)),
        spec_labelled(colored, "\x1b[32m"@, "成功解码"@, decimal(stats.successful_files as nat)),
    ];
    let failed = if colored && stats.failed_files == 0 {
        Seq::<Seq<char>>::empty()
    } else {
        seq![spec_labelled(colored, "\x1b[31m"@, "解码失败"@, decimal(stats.failed_files as nat))]
    };
    let tail = seq![
        spec_labelled(colored, "\x1b[33m"@, "总二维码数"@, decimal(stats.total_qr_codes as nat)),
        spec_labelled(colored, "\x1b[35m"@, "平均速度"@, speed),
        spec_labelled(colored, "\x1b[34m"@, "总耗时"@, spec_format_duration(elapsed)),
        spec_labelled(
            colored,
            spec_rate_color(stats.successful_files as nat, stats.total_files as nat),
            "成功率"@,
            rate,
        ),
    ];
    head + failed + tail
}

impl Default for ProgressDisplay {
    fn default() -> (d: Self)
        ensures
            d.colored,
            d.bar_width == 50,
            d.update_interval == UPDATE_INTERVAL,
    {
        Self { colored: true, bar_width: 50, last_update: now_millis(), update_interval: UPDATE_INTERVAL }
    }
}

impl ProgressDisplay {
    /// A coloured display with a bar of fifty characters.
    pub fn new() -> (d: Self)
        ensures
            d.colored,
            d.bar_width == 50,
            d.update_interval == UPDATE_INTERVAL,
    {
        Self { colored: true, bar_width: 50, last_update: now_millis(), update_interval: UPDATE_INTERVAL }
    }

    /// The same display, coloured or not.
    pub fn with_colored(self, colored: bool) -> (d: Self)
        ensures
            d.colored == colored,
            d.bar_width == self.bar_width,
            d.last_update == self.last_update,
            d.update_interval == self.update_interval,
    {
        Self {
            colored,
            bar_width: self.bar_width,
            last_update: self.last_update,
            update_interval: self.update_interval,
        }
    }

    /// The same display, with a bar of the given width.
    pub fn with_bar_width(self, width: usize) -> (d: Self)
        ensures
            d.bar_width == width,
            d.colored == self.colored,
            d.last_update == self.last_update,
            d.update_interval == self.update_interval,
    {
        Self {
            colored: self.colored,
            bar_width: width,
            last_update: self.last_update,
            update_interval: self.update_interval,
        }
    }

    /// A duration in words.
    pub fn format_duration(&self, duration: u64) -> (text: String)
        ensures
            text@ == spec_format_duration(duration as nat),
    {
        let total_seconds: u128 = (duration / 1000) as u128;
        let hours: u128 = total_seconds / 3600;
        let minutes: u128 = (total_seconds % 3600) / 60;
        let seconds: u128 = total_seconds % 60;
        let millis: u128 = (duration % 1000) as u128;
        if hours > 0 {
            decimal_text(hours).concat("h ").concat(decimal_text(minutes).as_str()).concat("m ").concat(
                decimal_text(seconds).as_str(),
            ).concat("s")
        } else if minutes > 0 {
            decimal_text(minutes).concat("m ").concat(decimal_text(seconds).as_str()).concat("s")
        } else if seconds > 0 {
            decimal_text(seconds).concat(".").concat(three_digits_text(millis).as_str()).concat("s")
        } else {
            decimal_text(millis).concat("ms")
        }
    }

    /// How many characters of the bar are filled after `processed` of
    /// `total` files.
    pub fn filled_width(&self, processed: usize, total: usize) -> (filled: usize)
        ensures
            filled == spec_filled_width(self.bar_width as nat, processed as nat, total as nat),
            filled <= self.bar_width,
    {
        if total == 0 {
            0
        } else if processed >= total {
            self.bar_width
        } else {
            let p: u128 = processed as u128;
            let w: u128 = self.bar_width as u128;
            let t: u128 = total as u128;
            assert(p * w <= 0xffff_ffff_ffff_ffff * 0xffff_ffff_ffff_ffff) by (nonlinear_arith)
                requires
                    0 <= p <= 0xffff_ffff_ffff_ffff,
                    0 <= w <= 0xffff_ffff_ffff_ffff,
            ;
            assert((p * w) as int / (t as int) <= w) by (nonlinear_arith)
                requires
                    0 <= p < t,
                    0 <= w,
            ;
            (p * w / t) as usize
        }
    }

    /// The name of a file as a progress line shows it.
    pub fn display_name(name: &str) -> (shown: String)
        ensures
            shown@ == spec_display_name(name@),
    {
        let n: usize = name.unicode_len();
        if n > MAX_FILE_NAME {
            String::from_str("...").concat(name.substring_char(n - 27, n))
        } else {
            String::from_str(name)
        }
    }

    /// The bar of a progress line.
    pub fn bar(&self, processed: usize, total: usize) -> (text: String)
        ensures
            text@ == spec_bar(self.colored, self.bar_width as nat, processed as nat, total as nat),
    {
        let filled: usize = self.filled_width(processed, total);
        let share = tenths_text(rounded_ratio_of(processed as u64, total as u64, 1000));
        if self.colored {
            String::from_str("\x1b[2K\x1b[32m\x1b[1m[\x1b[42m").concat(
                repeated_text("=", filled).as_str(),
            ).concat("\x1b[0m\x1b[37m").concat(repeated_text(" ", self.bar_width - filled).as_str()).concat(
                "\x1b[0m] ",
            ).concat(share.as_str()).concat("%")
        } else {
            String::from_str("[").concat(repeated_text("=", filled).as_str()).concat(
                repeated_text(" ", self.bar_width - filled).as_str(),
            ).concat("] ").concat(share.as_str()).concat("%")
        }
    }

    /// The progress line for the books as they stand `elapsed` milliseconds
    /// into the run, with `current_file` at hand.
    pub fn progress_line(&self, stats: &BatchStats, elapsed: u64, current_file: &str) -> (line: String)
        ensures
            line@ == spec_progress_line(
                self.colored,
                self.bar_width as nat,
                *stats,
                elapsed as nat,
                current_file@,
            ),
    {
        let left: u64 = stats.estimated_remaining_time_after(elapsed);
        let mut line = self.bar(stats.processed_files, stats.total_files).concat(" (").concat(
            decimal_text(stats.processed_files as u128).as_str(),
        ).concat("/").concat(decimal_text(stats.total_files as u128).as_str()).concat(") 速度: ").concat(
            tenths_text(rounded_ratio_of(stats.processed_files as u64, elapsed, 10_000)).as_str(),
        ).concat(" 文件/秒");
        let ghost head = line@;
        if left >= 1000 {
            line = line.concat(" ETA: ").concat(self.format_duration(left).as_str());
        }
        let ghost middle = line@;
        if !current_file.is_empty() {
            line = line.concat(" | ").concat(Self::display_name(current_file).as_str());
        }
        proof {
            let eta = if left >= 1000 {
                " ETA: "@ + spec_format_duration(left as nat)
            } else {
                Seq::<char>::empty()
            };
            let file = if current_file@.len() > 0 {
                " | "@ + spec_display_name(current_file@)
            } else {
                Seq::<char>::empty()
            };
            assert(middle =~= head + eta);
            assert(line@ =~= head + eta + file);
        }
        line
    }

    /// What a display does when the clock reads `now`: it hands out the
    /// progress line and notes the reading, unless the last line was handed
    /// out less than the update interval before; then there is no line, and
    /// the display stays as it was.
    pub open spec fn spec_progress_at(
        before: ProgressDisplay,
        stats: BatchStats,
        current_file: Seq<char>,
        now: i64,
        after: ProgressDisplay,
        line: Option<String>,
    ) -> bool {
        if spec_elapsed_between(before.last_update, now) < before.update_interval {
            line is None && after == before
        } else {
            &&& line matches Some(text) && text@ == spec_progress_line(
                before.colored,
                before.bar_width as nat,
                stats,
                spec_elapsed_between(stats.start_time, now) as nat,
                current_file,
            )
            &&& after == (ProgressDisplay { last_update: now, ..before })
        }
    }

    /// The progress line for the books as they stand when the clock reads
    /// `now`, unless the last line was handed out less than the update
    /// interval before.
    pub fn progress_at(&mut self, stats: &BatchStats, current_file: &str, now: i64) -> (line: Option<
        String,
    >)
        ensures
            Self::spec_progress_at(*old(self), *stats, current_file@, now, *final(self), line),
    {
        if elapsed_between(self.last_update, now) < self.update_interval {
            return None;
        }
        self.last_update = now;
        let elapsed: u64 = elapsed_between(stats.start_time, now);
        Some(self.progress_line(stats, elapsed, current_file))
    }

    /// The progress line for the books as they stand now: what
    /// `progress_at` hands out for the present reading of the clock.
    pub fn show_progress(&mut self, stats: &BatchStats, current_file: &str) -> (line: Option<String>)
        ensures
            exists|now: i64|
                Self::spec_progress_at(*old(self), *stats, current_file@, now, *final(self), line),
    {
        let now: i64 = now_millis();
        let line = self.progress_at(stats, current_file, now);
        assert(Self::spec_progress_at(*old(self), *stats, current_file@, now, *self, line));
        line
    }

    /// A line under a heading, the heading in bold colour where the display
    /// is coloured.
    pub open spec fn spec_headed(colored: bool, color: Seq<char>, heading: Seq<char>, message: Seq<char>) -> Seq<char> {
        if colored {
            color + "\x1b[1m"@ + heading + ":\x1b[0m "@ + message
        } else {
            heading + ": "@ + message
        }
    }

    /// A line under a heading.
    fn headed(&self, color: &str, heading: &str, message: &str) -> (line: String)
        ensures
            line@ == Self::spec_headed(self.colored, color@, heading@, message@),
    {
        if self.colored {
            String::from_str(color).concat("\x1b[1m").concat(heading).concat(":\x1b[0m ").concat(message)
        } else {
            String::from_str(heading).concat(": ").concat(message)
        }
    }

    /// The line that reports an error.
    pub fn show_error(&self, message: &str) -> (line: String)
        ensures
            line@ == Self::spec_headed(self.colored, "\x1b[31m"@, "错误"@, message@),
    {
        self.headed("\x1b[31m", "错误", message)
    }

    /// The line that gives a warning.
    pub fn show_warning(&self, message: &str) -> (line: String)
        ensures
            line@ == Self::spec_headed(self.colored, "\x1b[33m"@, "警告"@, message@),
    {
        self.headed("\x1b[33m", "警告", message)
    }

    /// The line that gives a piece of information.
    pub fn show_info(&self, message: &str) -> (line: String)
        ensures
            line@ == Self::spec_headed(self.colored, "\x1b[36m"@, "信息"@, message@),
    {
        self.headed("\x1b[36m", "信息", message)
    }

    /// The line that reports a success.
    pub fn show_success(&self, message: &str) -> (line: String)
        ensures
            line@ == Self::spec_headed(self.colored, "\x1b[32m"@, "成功"@, message@),
    {
        self.headed("\x1b[32m", "成功", message)
    }

    /// A value under a label.
    fn labelled(&self, color: &str, label: &str, value: &str) -> (line: String)
        ensures
            line@ == spec_labelled(self.colored, color@, label@, value@),
    {
        if self.colored {
            String::from_str(color).concat(label).concat(":\x1b[0m ").concat(value)
        } else {
            String::from_str(label).concat(": ").concat(value)
        }
    }

    /// A title between rules.
    fn title(&self, color: &str, title: &str) -> (line: String)
        ensures
            line@ == spec_title(self.colored, color@, title@),
    {
        if self.colored {
            String::from_str(color).concat("\x1b[1m=== ").concat(title).concat(" ===\x1b[0m")
        } else {
            String::from_str("=== ").concat(title).concat(" ===")
        }
    }

    /// The lines that open a batch run.
    pub fn show_start_info(&self, directory: &str, total_files: usize, recursive: bool) -> (lines: Vec<
        String,
    >)
        ensures
            spec_lines_of(lines@) == spec_start_info(
                self.colored,
                directory@,
                total_files as nat,
                recursive,
            ),
    {
        let mut lines: Vec<String> = Vec::new();
        lines.push(self.title("\x1b[36m", "开始批量处理"));
        lines.push(self.labelled("\x1b[33m", "目录", directory));
        lines.push(self.labelled("\x1b[33m", "文件数", decimal_text(total_files as u128).as_str()));
        lines.push(
            self.labelled(
                "\x1b[33m",
                "递归处理",
                if recursive {
                    "是"
                } else {
                    "否"
                },
            ),
        );
        lines.push(String::new());
        assert(spec_lines_of(lines@) =~= spec_start_info(
            self.colored,
            directory@,
            total_files as nat,
            recursive,
        ));
        lines
    }

    /// The line that tells what became of one file, which took
    /// `processing_time` milliseconds.
    pub fn show_file_result(&self, file_name: &str, success: bool, qr_count: usize, processing_time: u64) -> (line: String)
        ensures
            line@ == spec_file_result(
                self.colored,
                file_name@,
                success,
                qr_count as nat,
                processing_time as nat,
            ),
    {
        let mark: &str = if success {
            if self.colored {
                "\x1b[32m✓\x1b[0m "
            } else {
                "✓ "
            }
        } else {
            if self.colored {
                "\x1b[31m✗\x1b[0m "
            } else {
                "✗ "
            }
        };
        let mut line = String::from_str(mark).concat(file_name);
        let ghost head = line@;
        if success {
            line = line.concat(" - 解码 ").concat(decimal_text(qr_count as u128).as_str()).concat(
                " 个二维码 (",
            );
        } else {
            line.append(" - 解码失败 (");
        }
        let ghost middle = line@;
        line = line.concat(thousandths_text(processing_time as u128).as_str()).concat("s)");
        proof {
            let what = if success {
                " - 解码 "@ + decimal(qr_count as nat) + " 个二维码 ("@
            } else {
                " - 解码失败 ("@
            };
            assert(middle =~= head + what);
        }
        line
    }

    /// The colour of a success rate.
    fn rate_color(successful: usize, total: usize) -> (color: &'static str)
        ensures
            color@ == spec_rate_color(successful as nat, total as nat),
    {
        if total > 0 && successful as u128 * 10 >= total as u128 * 9 {
            "\x1b[32m"
        } else if total > 0 && successful as u128 * 10 >= total as u128 * 7 {
            "\x1b[33m"
        } else {
            "\x1b[31m"
        }
    }

    /// The lines that close a batch run, `elapsed` milliseconds after it
    /// began.
    pub fn final_result(&self, stats: &BatchStats, elapsed: u64) -> (lines: Vec<String>)
        ensures
            spec_lines_of(lines@) == spec_final_result(self.colored, *stats, elapsed as nat),
    {
        let speed = hundredths_text(
            rounded_ratio_of(stats.processed_files as u64, elapsed, 100_000),
        ).concat(" 文件/秒");
        let rate = tenths_text(
            rounded_ratio_of(stats.successful_files as u64, stats.total_files as u64, 1000),
        ).concat("%");
        let mut lines: Vec<String> = Vec::new();
        lines.push(String::new());
        lines.push(self.title("\x1b[32m", "批量处理完成"));
        lines.push(self.labelled("\x1b[36m", "总文件数", decimal_text(stats.total_files as u128).as_str()));
        lines.push(
            self.labelled("\x1b[32m", "成功解码", decimal_text(stats.successful_files as u128).as_str()),
        );
        if !self.colored || stats.failed_files > 0 {
            lines.push(
                self.labelled("\x1b[31m", "解码失败", decimal_text(stats.failed_files as u128).as_str()),
            );
        }
        lines.push(
            self.labelled("\x1b[33m", "总二维码数", decimal_text(stats.total_qr_codes as u128).as_str()),
        );
        lines.push(self.labelled("\x1b[35m", "平均速度", speed.as_str()));
        lines.push(self.labelled("\x1b[34m", "总耗时", self.format_duration(elapsed).as_str()));
        lines.push(
            self.labelled(
                Self::rate_color(stats.successful_files, stats.total_files),
                "成功率",
                rate.as_str(),
            ),
        );
        assert(spec_lines_of(lines@) =~= spec_final_result(self.colored, *stats, elapsed as nat));
        lines
    }

    /// The lines that close a batch run now: those of `final_result` for
    /// the time that has passed since the run began.
    pub fn show_final_result(&self, stats: &BatchStats) -> (lines: Vec<String>)
        ensures
            exists|elapsed: u64|
                spec_lines_of(lines@) == #[trigger] spec_final_result(
                    self.colored,
                    *stats,
                    elapsed as nat,
                ),
    {
        let elapsed: u64 = elapsed_between(stats.start_time, now_millis());
        let lines = self.final_result(stats, elapsed);
        assert(spec_lines_of(lines@) == spec_final_result(self.colored, *stats, elapsed as nat));
        lines
    }

    /// What wipes the current line of a terminal.
    pub fn clear_line(&self) -> (codes: String)
        ensures
            codes@ == "\r\x1b[2K"@,
    {
        String::from_str("\r\x1b[2K")
    }
}

/// The progress line of a fresh display for the books as they stand now; a
/// fresh display hands out no line before its update interval has passed.
pub fn simple_progress_callback(stats: &BatchStats, current_file: &str) -> (line: Option<String>)
    ensures
        line matches Some(text) ==> exists|elapsed: u64|
            text@ == #[trigger] spec_progress_line(true, 50, *stats, elapsed as nat, current_file@),
{
    let mut display = ProgressDisplay::new();
    display.show_progress(stats, current_file)
}

/// The note that follows every tenth file: how many files are processed,
/// and how many of them were read and were not.
pub open spec fn spec_tally(stats: BatchStats) -> Seq<char> {
    "已处理 "@ + decimal(stats.processed_files as nat) + " 个文件，成功 "@ + decimal(
        stats.successful_files as nat,
    ) + " 个，失败 "@ + decimal(stats.failed_files as nat) + " 个"@
}

/// The progress line of a fresh display, and with it, after every tenth
/// file, a note on how the run is going.
pub fn detailed_progress_callback(stats: &BatchStats, current_file: &str) -> (lines: (
    Option<String>,
    Option<String>,
))
    ensures
        lines.0 matches Some(text) ==> exists|elapsed: u64|
            text@ == #[trigger] spec_progress_line(true, 50, *stats, elapsed as nat, current_file@),
        lines.1 is Some <==> stats.processed_files > 0 && stats.processed_files % 10 == 0,
        lines.1 matches Some(note) ==> note@ == ProgressDisplay::spec_headed(
            true,
            "\x1b[36m"@,
            "信息"@,
            spec_tally(*stats),
        ),
{
    let mut display = ProgressDisplay::new();
    let line = display.show_progress(stats, current_file);
    let note = if stats.processed_files % 10 == 0 && stats.processed_files > 0 {
        let tally = String::from_str("已处理 ").concat(
            decimal_text(stats.processed_files as u128).as_str(),
        ).concat(" 个文件，成功 ").concat(decimal_text(stats.successful_files as u128).as_str()).concat(
            " 个，失败 ",
        ).concat(decimal_text(stats.failed_files as u128).as_str()).concat(" 个");
        Some(display.show_info(tally.as_str()))
    } else {
        None
    };
    (line, note)
}

} // verus!

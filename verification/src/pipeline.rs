//! A run from beginning to end: which search comes next, how the run ends,
//! and what is told of a batch run once it is over.

use crate::batch_processor::{
    spec_capped_time, spec_remaining_time, BatchConfig, BatchResult, BatchStats,
};
use crate::cli::Args;
use crate::error::QRDecodeError;
use crate::formats::supported_formats;
use crate::text::{
    decimal, decimal_text, hundredths, hundredths_text, rounded_ratio, rounded_ratio_of,
    spec_lines_of, tenths, tenths_text,
};
use crate::types::{copy_optional_text, ProcessingConfig, QRCodeResult};
use vstd::prelude::*;

verus! {

/// Whether the exhaustive search runs after the quick one: only where the
/// quick one found nothing and the exhaustive one is asked for.
pub open spec fn spec_falls_back(found: Seq<QRCodeResult>, brute_force: bool) -> bool {
    found.len() == 0 && brute_force
}

/// Whether the exhaustive search runs after the quick one found `found`.
pub fn falls_back(config: &ProcessingConfig, found: &Vec<QRCodeResult>) -> (goes_on: bool)
    ensures
        goes_on == spec_falls_back(found@, config.brute_force),
{
    found.len() == 0 && config.brute_force
}

/// How a run on one image ends: with its results, or, where there are
/// none, with `InvalidInput`.
pub fn conclude(results: Vec<QRCodeResult>) -> (r: Result<Vec<QRCodeResult>, QRDecodeError>)
    ensures
        r is Ok <==> results@.len() > 0,
        r matches Ok(kept) ==> kept == results,
        r matches Err(e) ==> e is InvalidInput && e.detail() == "未找到二维码"@,
{
    if results.len() == 0 {
        Err(QRDecodeError::invalid_input(String::from_str("未找到二维码")))
    } else {
        Ok(results)
    }
}

/// The status with which a run that failed leaves.
pub open spec fn spec_exit_code(error: QRDecodeError) -> int {
    match error {
        QRDecodeError::IoError(_) => 2,
        QRDecodeError::OpenCVError(_) => 3,
        QRDecodeError::InvalidInput(_) => 4,
        QRDecodeError::UnsupportedFormat(_) => 5,
        QRDecodeError::ImageProcessingError(_) => 6,
        QRDecodeError::OutputError(_) => 7,
        _ => 1,
    }
}

/// The status with which a run that failed leaves.
pub fn exit_code(error: &QRDecodeError) -> (code: i32)
    ensures
        code == spec_exit_code(*error),
{
    match error {
        QRDecodeError::IoError(_) => 2,
        QRDecodeError::OpenCVError(_) => 3,
        QRDecodeError::InvalidInput(_) => 4,
        QRDecodeError::UnsupportedFormat(_) => 5,
        QRDecodeError::ImageProcessingError(_) => 6,
        QRDecodeError::OutputError(_) => 7,
        _ => 1,
    }
}

/// What steers the batch run that the arguments ask for: it reads the
/// image formats that a single run reads, expects one code in each image and
/// walks its candidates in order. Arguments that ask for no batch run are
/// `InvalidInput`.
pub fn batch_config(args: &Args) -> (r: Result<BatchConfig, QRDecodeError>)
    ensures
        r is Ok <==> args.batch_mode,
        r matches Ok(c) ==> {
            &&& c.directory == args.spec_directory()
            &&& c.recursive == args.recursive
            &&& c.output_report == args.report_output
            &&& c.spec_formats() == crate::formats::spec_supported_formats()
            &&& c.expected_count == 1
            &&& !c.randomize
            &&& c.show_progress == (args.show_progress && !args.quiet)
            &&& c.colored_output == (args.colored_output && !args.quiet)
            &&& c.verbose == args.verbose
            &&& c.quiet == args.quiet
        },
        r matches Err(e) ==> e is InvalidInput && e.detail() == "批量处理模式需要指定目录路径"@,
{
    let directory = match args.get_batch_directory() {
        Some(d) => d.clone(),
        None => {
            return Err(QRDecodeError::invalid_input(String::from_str("批量处理模式需要指定目录路径")));
        },
    };
    let known = supported_formats();
    let mut formats: Vec<String> = Vec::new();
    let mut i: usize = 0;
    while i < known.len()
        invariant
            i <= known.len(),
            formats@.len() == i,
            forall|j: int| 0 <= j < i ==> (#[trigger] formats@[j])@ == known@[j]@,
        decreases known.len() - i,
    {
        formats.push(String::from_str(known[i]));
        i += 1;
    }
    let c = BatchConfig {
        directory,
        recursive: args.is_recursive(),
        output_report: copy_optional_text(&args.report_output),
        supported_formats: formats,
        expected_count: 1,
        randomize: false,
        show_progress: args.should_show_progress(),
        colored_output: args.is_colored_output(),
        verbose: args.verbose,
        quiet: args.quiet,
    };
    assert(c.spec_formats() =~= crate::formats::spec_supported_formats());
    Ok(c)
}

/// The books over the first `n` outcomes of a run of `total` files that
/// began at `start`.
pub open spec fn spec_tally(results: Seq<BatchResult>, n: nat, start: i64) -> BatchStats
    decreases n,
{
    if n == 0 {
        BatchStats {
            total_files: results.len() as usize,
            processed_files: 0,
            successful_files: 0,
            failed_files: 0,
            total_qr_codes: 0,
            start_time: start,
            total_processing_time: 0,
        }
    } else {
        spec_tally(results, (n - 1) as nat, start).spec_record(
            results[n - 1].success,
            results[n - 1].results@.len(),
            results[n - 1].processing_time,
        )
    }
}

/// In the books over some outcomes, every outcome counts as processed, and
/// exactly once as read or as not read.
pub proof fn lemma_tally_balances(results: Seq<BatchResult>, n: nat, start: i64)
    requires
        n <= results.len() <= usize::MAX,
    ensures
        spec_tally(results, n, start).total_files == results.len(),
        spec_tally(results, n, start).processed_files == n,
        spec_tally(results, n, start).successful_files + spec_tally(results, n, start).failed_files
            == n,
        spec_tally(results, n, start).start_time == start,
    decreases n,
{
    if n > 0 {
        lemma_tally_balances(results, (n - 1) as nat, start);
    }
}

/// The books drawn up afresh from the outcomes of a run, as of now.
pub fn tally(results: &Vec<BatchResult>) -> (stats: BatchStats)
    ensures
        stats == spec_tally(results@, results@.len(), stats.start_time),
        stats.total_files == results@.len(),
        stats.processed_files == results@.len(),
        stats.successful_files + stats.failed_files == results@.len(),
{
    let mut stats = BatchStats::new();
    stats.total_files = results.len();
    let ghost start = stats.start_time;
    let mut i: usize = 0;
    while i < results.len()
        invariant
            i <= results.len(),
            stats == spec_tally(results@, i as nat, start),
        decreases results.len() - i,
    {
        stats.record(&results[i]);
        i += 1;
    }
    proof {
        lemma_tally_balances(results@, results@.len(), start);
    }
    stats
}

/// The lines that sum a batch run up, `elapsed` milliseconds after the
/// books were opened: the books, the files per second and the seconds that
/// the files took together, both to two places.
pub open spec fn spec_batch_summary(stats: BatchStats, elapsed: nat) -> Seq<Seq<char>> {
    seq![
        "\n✅ 批量处理完成!"@,
        "📊 处理统计:"@,
        "   - 总文件数: "@ + decimal(stats.total_files as nat),
        "   - 成功解码: "@ + decimal(stats.successful_files as nat),
        "   - 解码失败: "@ + decimal(stats.failed_files as nat),
        "   - 总二维码数: "@ + decimal(stats.total_qr_codes as nat),
        "   - 处理速度: "@ + hundredths(rounded_ratio(stats.processed_files as nat, elapsed, 100_000))
            + " 文件/秒"@,
        "   - 总耗时: "@ + hundredths(rounded_ratio(stats.total_processing_time as nat, 10, 1))
            + " 秒"@,
    ]
}

/// The lines that sum a batch run up.
pub fn batch_summary(stats: &BatchStats, elapsed: u64) -> (lines: Vec<String>)
    ensures
        spec_lines_of(lines@) == spec_batch_summary(*stats, elapsed as nat),
{
    let mut lines: Vec<String> = Vec::new();
    lines.push(String::from_str("\n✅ 批量处理完成!"));
    lines.push(String::from_str("📊 处理统计:"));
    lines.push(String::from_str("   - 总文件数: ").concat(decimal_text(stats.total_files as u128).as_str()));
    lines.push(
        String::from_str("   - 成功解码: ").concat(decimal_text(stats.successful_files as u128).as_str()),
    );
    lines.push(String::from_str("   - 解码失败: ").concat(decimal_text(stats.failed_files as u128).as_str()));
    lines.push(
        String::from_str("   - 总二维码数: ").concat(decimal_text(stats.total_qr_codes as u128).as_str()),
    );
    lines.push(
        String::from_str("   - 处理速度: ").concat(
            hundredths_text(rounded_ratio_of(stats.processed_files as u64, elapsed, 100_000)).as_str(),
        ).concat(" 文件/秒"),
    );
    lines.push(
        String::from_str("   - 总耗时: ").concat(
            hundredths_text(rounded_ratio_of(stats.total_processing_time, 10, 1)).as_str(),
        ).concat(" 秒"),
    );
    assert(spec_lines_of(lines@) =~= spec_batch_summary(*stats, elapsed as nat));
    lines
}

/// The line that tells of a file that was not read: its path, and why it
/// could not be processed where that is known.
pub open spec fn spec_failure_line(result: BatchResult) -> Seq<char> {
    "   "@ + result.file_path@ + ": "@ + (match result.error {
        Some(e) => e@,
        None => "未知错误"@,
    })
}

/// Whether an outcome is that of a file that was not read.
pub open spec fn is_failure() -> spec_fn(BatchResult) -> bool {
    |result: BatchResult| !result.success
}

/// The lines that tell of the files that were not read, in the order of
/// the run.
pub fn failures(results: &Vec<BatchResult>) -> (lines: Vec<String>)
    ensures
        spec_lines_of(lines@) == results@.filter(is_failure()).map_values(
            |result: BatchResult| spec_failure_line(result),
        ),
{
    let ghost line_of = |result: BatchResult| spec_failure_line(result);
    let mut lines: Vec<String> = Vec::new();
    let mut i: usize = 0;
    while i < results.len()
        invariant
            i <= results.len(),
            line_of == |result: BatchResult| spec_failure_line(result),
            spec_lines_of(lines@) == results@.take(i as int).filter(is_failure()).map_values(line_of),
        decreases results.len() - i,
    {
        let result = &results[i];
        proof {
            reveal(Seq::filter);
            assert(results@.take(i + 1).drop_last() =~= results@.take(i as int));
            assert(results@.take(i + 1).last() == results@[i as int]);
        }
        if !result.success {
            let ghost before = spec_lines_of(lines@);
            let mut line = String::from_str("   ").concat(result.file_path.as_str()).concat(": ");
            match &result.error {
                Some(e) => {
                    line.append(e.as_str());
                },
                None => {
                    line.append("未知错误");
                },
            }
            lines.push(line);
            assert(spec_lines_of(lines@) =~= before.push(spec_failure_line(*result)));
            assert(results@.take(i + 1).filter(is_failure()).map_values(line_of) =~= before.push(
                spec_failure_line(*result),
            ));
        }
        i += 1;
    }
    proof {
        assert(results@.take(results.len() as int) =~= results@);
    }
    lines
}

/// The line that tells how a decode ended: how many codes were found at
/// the minimum confidence, which is shown to two places, rounded to the
/// nearest.
pub open spec fn spec_decode_finished(count: nat, min_confidence: nat) -> Seq<char> {
    "🎯 解码完成，找到 "@ + decimal(count) + " 个二维码（置信度 >= "@ + hundredths(
        rounded_ratio(min_confidence, 10, 1),
    ) + "）"@
}

/// The line that tells how a decode ended.
pub fn decode_finished(count: usize, min_confidence: u32) -> (line: String)
    ensures
        line@ == spec_decode_finished(count as nat, min_confidence as nat),
{
    String::from_str("🎯 解码完成，找到 ").concat(decimal_text(count as u128).as_str()).concat(
        " 个二维码（置信度 >= ",
    ).concat(hundredths_text(rounded_ratio_of(min_confidence as u64, 10, 1)).as_str()).concat("）")
}

/// The line that tells how the exhaustive search ended.
pub fn brute_force_finished(count: usize) -> (line: String)
    ensures
        line@ == "💪 暴力破解解码完成，找到 "@ + decimal(count as nat) + " 个二维码"@,
{
    String::from_str("💪 暴力破解解码完成，找到 ").concat(decimal_text(count as u128).as_str()).concat(
        " 个二维码",
    )
}

/// The line that a batch run writes for the file at hand, `elapsed`
/// milliseconds into the run: the files processed out of all, their share
/// in percent to one place, the file, the files per second to one place,
/// and the seconds that are left, rounded to the nearest.
pub open spec fn spec_batch_progress(stats: BatchStats, current_file: Seq<char>, elapsed: nat) -> Seq<
    char,
> {
    "🔍 ["@ + decimal(stats.processed_files as nat) + "/"@ + decimal(stats.total_files as nat) + "] ("@
        + tenths(rounded_ratio(stats.processed_files as nat, stats.total_files as nat, 1000)) + "%) "@
        + current_file + " - 速度: "@ + tenths(
        rounded_ratio(stats.processed_files as nat, elapsed, 10_000),
    ) + " 文件/秒 - 预计剩余: "@ + decimal(
        rounded_ratio(
            spec_capped_time(
                spec_remaining_time(
                    stats.total_files as int,
                    stats.processed_files as int,
                    elapsed as int,
                ),
            ) as nat,
            1000,
            1,
        ),
    ) + "秒"@
}

/// The line that a batch run writes for the file at hand.
pub fn batch_progress(stats: &BatchStats, current_file: &str, elapsed: u64) -> (line: String)
    ensures
        line@ == spec_batch_progress(*stats, current_file@, elapsed as nat),
{
    String::from_str("🔍 [").concat(decimal_text(stats.processed_files as u128).as_str()).concat(
        "/",
    ).concat(decimal_text(stats.total_files as u128).as_str()).concat("] (").concat(
        tenths_text(
            rounded_ratio_of(stats.processed_files as u64, stats.total_files as u64, 1000),
        ).as_str(),
    ).concat("%) ").concat(current_file).concat(" - 速度: ").concat(
        tenths_text(rounded_ratio_of(stats.processed_files as u64, elapsed, 10_000)).as_str(),
    ).concat(" 文件/秒 - 预计剩余: ").concat(
        decimal_text(rounded_ratio_of(stats.estimated_remaining_time_after(elapsed), 1000, 1)).as_str(),
    ).concat("秒")
}

} // verus!

//! The report of a batch run.

use crate::batch_processor::{BatchConfig, BatchResult, BatchStats};
use crate::formats::{file_name_of, spec_file_name};
use crate::text::{
    decimal, decimal_text, hundredths, hundredths_text, rounded_ratio, rounded_ratio_of,
    signed_decimal, signed_decimal_text, spec_lines_of, thousandths, thousandths_text,
};
use crate::types::{Corner, QrResult};
use vstd::prelude::*;

verus! {

/// The name under which a file without a name is reported.
pub open spec fn spec_shown_name(path: Seq<char>) -> Seq<char> {
    if spec_file_name(path).len() == 0 {
        "未知文件"@
    } else {
        spec_file_name(path)
    }
}

/// One corner, in pixels to one place.
pub open spec fn spec_point(c: Corner) -> Seq<char> {
    "("@ + signed_decimal(c.0 as int) + ".0, "@ + signed_decimal(c.1 as int) + ".0)"@
}

/// The first `n` corners, a comma and a blank between one and the next.
pub open spec fn spec_point_list(points: Seq<Corner>, n: nat) -> Seq<char>
    decreases n,
{
    if n == 0 {
        Seq::empty()
    } else if n == 1 {
        spec_point(points[0])
    } else {
        spec_point_list(points, (n - 1) as nat) + ", "@ + spec_point(points[n - 1])
    }
}

/// What the report says of one code: its number and content, and its
/// corners between square brackets where they are known.
pub open spec fn spec_code_lines(code: QrResult, index: nat) -> Seq<char> {
    "  二维码 "@ + decimal(index + 1) + ": "@ + code.content@ + "\n"@ + (match code.points {
        Some(p) => "  坐标: ["@ + spec_point_list(p@, p@.len()) + "]\n"@,
        None => Seq::<char>::empty(),
    })
}

/// What the report says of the first `n` codes of a file.
pub open spec fn spec_codes(codes: Seq<QrResult>, n: nat) -> Seq<char>
    decreases n,
{
    if n == 0 {
        Seq::empty()
    } else {
        spec_codes(codes, (n - 1) as nat) + spec_code_lines(codes[n - 1], (n - 1) as nat)
    }
}

/// What the report says of one file: its name and path, whether it was
/// read, the seconds that it took to three places, then its codes where it
/// was read, or else why it could not be processed where that is known; and
/// a blank line.
pub open spec fn spec_entry(result: BatchResult) -> Seq<char> {
    "文件: "@ + spec_shown_name(result.file_path@) + "\n"@ + "路径: \""@ + result.file_path@ + "\"\n"@
        + "状态: "@ + (if result.success {
        "成功"@
    } else {
        "失败"@
    }) + "\n"@ + "耗时: "@ + thousandths(result.processing_time as nat) + " 秒\n"@ + (if result.success {
        "解码数量: "@ + decimal(result.results@.len()) + "\n"@ + spec_codes(
            result.results@,
            result.results@.len(),
        )
    } else {
        match result.error {
            Some(e) => "错误: "@ + e@ + "\n"@,
            None => Seq::<char>::empty(),
        }
    }) + "\n"@
}

/// What the report says of the first `n` files.
pub open spec fn spec_entries(results: Seq<BatchResult>, n: nat) -> Seq<char>
    decreases n,
{
    if n == 0 {
        Seq::empty()
    } else {
        spec_entries(results, (n - 1) as nat) + spec_entry(results[n - 1])
    }
}

/// The head of the report, `elapsed` milliseconds after the run began: the
/// directory and whether directories below were walked, the books, the
/// files per second and the seconds taken, both to two places.
pub open spec fn spec_head(directory: Seq<char>, recursive: bool, stats: BatchStats, elapsed: nat) -> Seq<
    char,
> {
    "=== 批量二维码解码报告 ===\n\n"@ + "处理目录: \""@ + directory + "\"\n"@ + "递归处理: "@ + (if recursive {
        "是"@
    } else {
        "否"@
    }) + "\n"@ + "总文件数: "@ + decimal(stats.total_files as nat) + "\n"@ + "成功解码: "@ + decimal(
        stats.successful_files as nat,
    ) + "\n"@ + "解码失败: "@ + decimal(stats.failed_files as nat) + "\n"@ + "总二维码数: "@ + decimal(
        stats.total_qr_codes as nat,
    ) + "\n"@ + "处理速度: "@ + hundredths(rounded_ratio(stats.processed_files as nat, elapsed, 100_000))
        + " 文件/秒\n"@ + "总耗时: "@ + hundredths(rounded_ratio(elapsed, 10, 1)) + " 秒\n\n"@
        + "=== 详细结果 ===\n\n"@
}

/// The whole report.
pub open spec fn spec_report(
    directory: Seq<char>,
    recursive: bool,
    results: Seq<BatchResult>,
    stats: BatchStats,
    elapsed: nat,
) -> Seq<char> {
    spec_head(directory, recursive, stats, elapsed) + spec_entries(results, results.len())
}

/// The corners of a code, a comma and a blank between one and the next.
pub fn point_list(points: &Vec<Corner>) -> (text: String)
    ensures
        text@ == spec_point_list(points@, points@.len()),
{
    let mut text = String::new();
    let mut i: usize = 0;
    while i < points.len()
        invariant
            i <= points.len(),
            text@ == spec_point_list(points@, i as nat),
        decreases points.len() - i,
    {
        let ghost before = text@;
        if i > 0 {
            text.append(", ");
        }
        let c: Corner = points[i];
        let point = String::from_str("(").concat(signed_decimal_text(c.0 as i128).as_str()).concat(
            ".0, ",
        ).concat(signed_decimal_text(c.1 as i128).as_str()).concat(".0)");
        text.append(point.as_str());
        proof {
            if i == 0 {
                assert(text@ =~= point@);
            } else {
                assert(text@ =~= before + ", "@ + point@);
            }
        }
        i += 1;
    }
    text
}

/// What the report says of one code.
pub fn code_lines(code: &QrResult, index: usize) -> (text: String)
    ensures
        text@ == spec_code_lines(*code, index as nat),
{
    let mut text = String::from_str("  二维码 ").concat(decimal_text(index as u128 + 1).as_str()).concat(
        ": ",
    ).concat(code.content.as_str()).concat("\n");
    let ghost head = text@;
    match &code.points {
        Some(p) => {
            let line = String::from_str("  坐标: [").concat(point_list(p).as_str()).concat("]\n");
            text.append(line.as_str());
        },
        None => {
            assert(text@ =~= head + Seq::<char>::empty());
        },
    }
    text
}

/// What the report says of the codes of a file.
pub fn codes(found: &Vec<QrResult>) -> (text: String)
    ensures
        text@ == spec_codes(found@, found@.len()),
{
    let mut text = String::new();
    let mut i: usize = 0;
    while i < found.len()
        invariant
            i <= found.len(),
            text@ == spec_codes(found@, i as nat),
        decreases found.len() - i,
    {
        text.append(code_lines(&found[i], i).as_str());
        i += 1;
    }
    text
}

/// What the report says of one file.
pub fn entry(result: &BatchResult) -> (text: String)
    ensures
        text@ == spec_entry(*result),
{
    let name: &str = file_name_of(result.file_path.as_str());
    let shown: &str = if name.is_empty() {
        "未知文件"
    } else {
        name
    };
    let mut text = String::from_str("文件: ").concat(shown).concat("\n").concat("路径: \"").concat(
        result.file_path.as_str(),
    ).concat("\"\n").concat("状态: ").concat(
        if result.success {
            "成功"
        } else {
            "失败"
        },
    ).concat("\n").concat("耗时: ").concat(
        thousandths_text(result.processing_time as u128).as_str(),
    ).concat(" 秒\n");
    let ghost head = text@;
    if result.success {
        let part = String::from_str("解码数量: ").concat(
            decimal_text(result.results.len() as u128).as_str(),
        ).concat("\n").concat(codes(&result.results).as_str());
        text.append(part.as_str());
    } else {
        match &result.error {
            Some(e) => {
                let part = String::from_str("错误: ").concat(e.as_str()).concat("\n");
                text.append(part.as_str());
            },
            None => {
                assert(text@ =~= head + Seq::<char>::empty());
            },
        }
    }
    text.append("\n");
    text
}

/// The head of the report.
pub fn head(config: &BatchConfig, stats: &BatchStats, elapsed: u64) -> (text: String)
    ensures
        text@ == spec_head(config.directory@, config.recursive, *stats, elapsed as nat),
{
    String::from_str("=== 批量二维码解码报告 ===\n\n").concat("处理目录: \"").concat(
        config.directory.as_str(),
    ).concat("\"\n").concat("递归处理: ").concat(
        if config.recursive {
            "是"
        } else {
            "否"
        },
    ).concat("\n").concat("总文件数: ").concat(decimal_text(stats.total_files as u128).as_str()).concat(
        "\n",
    ).concat("成功解码: ").concat(decimal_text(stats.successful_files as u128).as_str()).concat(
        "\n",
    ).concat("解码失败: ").concat(decimal_text(stats.failed_files as u128).as_str()).concat("\n").concat(
        "总二维码数: ",
    ).concat(decimal_text(stats.total_qr_codes as u128).as_str()).concat("\n").concat(
        "处理速度: ",
    ).concat(
        hundredths_text(rounded_ratio_of(stats.processed_files as u64, elapsed, 100_000)).as_str(),
    ).concat(" 文件/秒\n").concat("总耗时: ").concat(
        hundredths_text(rounded_ratio_of(elapsed, 10, 1)).as_str(),
    ).concat(" 秒\n\n").concat("=== 详细结果 ===\n\n")
}

/// The report of a run under `config`, `elapsed` milliseconds after it
/// began.
pub fn report(config: &BatchConfig, results: &Vec<BatchResult>, stats: &BatchStats, elapsed: u64) -> (text: String)
    ensures
        text@ == spec_report(
            config.directory@,
            config.recursive,
            results@,
            *stats,
            elapsed as nat,
        ),
{
    let mut text = head(config, stats, elapsed);
    let ghost top = text@;
    let mut i: usize = 0;
    while i < results.len()
        invariant
            i <= results.len(),
            text@ == top + spec_entries(results@, i as nat),
        decreases results.len() - i,
    {
        let one = entry(&results[i]);
        text.append(one.as_str());
        assert(text@ =~= top + (spec_entries(results@, i as nat) + one@));
        i += 1;
    }
    text
}

/// What is said while a file is being processed.
pub fn processing_note(file_path: &str) -> (note: String)
    ensures
        note@ == "正在处理: "@ + spec_shown_name(file_path@),
{
    let name: &str = file_name_of(file_path);
    String::from_str("正在处理: ").concat(
        if name.is_empty() {
            "未知文件"
        } else {
            name
        },
    )
}

/// The lines that tell of one code of a file as soon as the file is done:
/// its number and content, and in a verbose run its corners where they are
/// known.
pub open spec fn spec_code_shown(code: QrResult, index: nat, verbose: bool) -> Seq<Seq<char>> {
    seq!["   📄 二维码 "@ + decimal(index + 1) + ": "@ + code.content@] + (match code.points {
        Some(p) if verbose => seq!["      📍 位置: ["@ + spec_point_list(p@, p@.len()) + "]"@],
        _ => Seq::<Seq<char>>::empty(),
    })
}

/// The lines that tell of the first `n` codes of a file.
pub open spec fn spec_codes_shown(codes: Seq<QrResult>, n: nat, verbose: bool) -> Seq<Seq<char>>
    decreases n,
{
    if n == 0 {
        Seq::empty()
    } else {
        spec_codes_shown(codes, (n - 1) as nat, verbose) + spec_code_shown(
            codes[n - 1],
            (n - 1) as nat,
            verbose,
        )
    }
}

/// The lines that tell of a file as soon as it is done: its name under a
/// tick or a cross, its path and the seconds that it took, to three places;
/// for a file that was read the number of codes and each code, for one
/// that was not the reason where it is known.
pub open spec fn spec_file_lines(result: BatchResult, verbose: bool) -> Seq<Seq<char>> {
    let time = "   ⏱️  处理时间: "@ + thousandths(result.processing_time as nat) + " 秒"@;
    let path = "   📁 路径: "@ + result.file_path@;
    if result.success {
        seq![
            "\n✅ "@ + spec_shown_name(result.file_path@),
            path,
            "   🎯 检测到 "@ + decimal(result.results@.len()) + " 个二维码"@,
            time,
        ] + spec_codes_shown(result.results@, result.results@.len(), verbose)
    } else {
        seq!["\n❌ "@ + spec_shown_name(result.file_path@), path, time] + (match result.error {
            Some(e) => seq!["   🚫 错误: "@ + e@],
            None => Seq::<Seq<char>>::empty(),
        })
    }
}

/// The lines that tell of a file as soon as it is done.
pub fn file_lines(result: &BatchResult, verbose: bool) -> (lines: Vec<String>)
    ensures
        spec_lines_of(lines@) == spec_file_lines(*result, verbose),
{
    let name: &str = file_name_of(result.file_path.as_str());
    let shown: &str = if name.is_empty() {
        "未知文件"
    } else {
        name
    };
    let time = String::from_str("   ⏱️  处理时间: ").concat(
        thousandths_text(result.processing_time as u128).as_str(),
    ).concat(" 秒");
    let path = String::from_str("   📁 路径: ").concat(result.file_path.as_str());
    let mut lines: Vec<String> = Vec::new();
    if result.success {
        lines.push(String::from_str("\n✅ ").concat(shown));
        lines.push(path);
        lines.push(
            String::from_str("   🎯 检测到 ").concat(
                decimal_text(result.results.len() as u128).as_str(),
            ).concat(" 个二维码"),
        );
        lines.push(time);
        let ghost head = spec_lines_of(lines@);
        assert(head =~= seq![
            "\n✅ "@ + spec_shown_name(result.file_path@),
            "   📁 路径: "@ + result.file_path@,
            "   🎯 检测到 "@ + decimal(result.results@.len()) + " 个二维码"@,
            "   ⏱️  处理时间: "@ + thousandths(result.processing_time as nat) + " 秒"@,
        ]);
        let mut i: usize = 0;
        while i < result.results.len()
            invariant
                i <= result.results@.len(),
                spec_lines_of(lines@) == head + spec_codes_shown(result.results@, i as nat, verbose),
            decreases result.results@.len() - i,
        {
            let code = &result.results[i];
            let ghost before = spec_lines_of(lines@);
            lines.push(
                String::from_str("   📄 二维码 ").concat(decimal_text(i as u128 + 1).as_str()).concat(
                    ": ",
                ).concat(code.content.as_str()),
            );
            let ghost numbered = spec_lines_of(lines@);
            assert(numbered =~= before.push(
                "   📄 二维码 "@ + decimal((i + 1) as nat) + ": "@ + code.content@,
            ));
            match &code.points {
                Some(p) => {
                    if verbose {
                        lines.push(
                            String::from_str("      📍 位置: [").concat(point_list(p).as_str()).concat(
                                "]",
                            ),
                        );
                        assert(spec_lines_of(lines@) =~= numbered.push(
                            "      📍 位置: ["@ + spec_point_list(p@, p@.len()) + "]"@,
                        ));
                    }
                },
                None => {},
            }
            assert(spec_lines_of(lines@) =~= before + spec_code_shown(*code, i as nat, verbose));
            assert(spec_lines_of(lines@) =~= head + (spec_codes_shown(
                result.results@,
                i as nat,
                verbose,
            ) + spec_code_shown(*code, i as nat, verbose)));
            i += 1;
        }
    } else {
        lines.push(String::from_str("\n❌ ").concat(shown));
        lines.push(path);
        lines.push(time);
        match &result.error {
            Some(e) => {
                lines.push(String::from_str("   🚫 错误: ").concat(e.as_str()));
            },
            None => {},
        }
        assert(spec_lines_of(lines@) =~= spec_file_lines(*result, verbose));
    }
    lines
}

} // verus!

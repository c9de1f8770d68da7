//! The arguments of a run, once they are parsed.
//!
//! Parsing the command line and looking at the file system are the caller's
//! part. This module holds what was asked for, and judges it against what
//! the caller found on disk.

use crate::error::QRDecodeError;
use crate::formats::{
    is_supported_path, spec_extension, spec_is_supported, spec_supported_formats, supported_formats,
};
use crate::text::spec_lines_of;
use crate::types::{copy_optional_text, OutputFormat, CONFIDENCE_MAX};
use vstd::prelude::*;

verus! {

/// What a run was asked to do.
#[derive(Debug)]
pub struct Args {
    /// The image to read, or the directory of a batch run.
    pub input_path: String,
    /// Where the results go; standard output where absent.
    pub output_path: Option<String>,
    /// How the results are written.
    pub output_format: OutputFormat,
    /// Whether the image is cleaned up before detection.
    pub preprocess: bool,
    /// Whether progress is narrated.
    pub verbose: bool,
    /// Whether nothing but results is written.
    pub quiet: bool,
    /// Whether positions are written with the text.
    pub show_position: bool,
    /// Results below this confidence are dropped, in thousandths.
    pub min_confidence: u32,
    /// Whether the cleaned-up image is kept.
    pub save_processed: bool,
    /// Where the cleaned-up image is kept.
    pub processed_output_path: Option<String>,
    /// Whether the run only explains itself.
    pub show_help: bool,
    /// Whether the run only names its version.
    pub show_version: bool,
    /// Whether the exhaustive search runs when the quick one finds nothing.
    pub brute_force: bool,
    /// How many codes the image is expected to hold.
    pub expected_count: usize,
    /// Whether the exhaustive search walks its candidates in random order.
    pub randomize: bool,
    /// Whether the image is inverted before detection.
    pub invert: bool,
    /// Whether a whole directory is processed.
    pub batch_mode: bool,
    /// The directory of a batch run, where it is not the input path.
    pub batch_directory: Option<String>,
    /// Whether directories below it are walked too.
    pub recursive: bool,
    /// Where the report of a batch run goes.
    pub report_output: Option<String>,
    /// Whether progress is shown.
    pub show_progress: bool,
    /// Whether output is coloured.
    pub colored_output: bool,
}

/// The values of a command line, as the parser hands them out.
#[derive(Debug)]
pub struct ParsedArgs {
    /// The image or directory that was named, if one was.
    pub input: Option<String>,
    /// Where the results go, if that was said.
    pub output: Option<String>,
    /// The name of the output format.
    pub format: String,
    /// Whether the image is cleaned up before detection.
    pub preprocess: bool,
    /// Whether progress is narrated.
    pub verbose: bool,
    /// Whether nothing but results is written.
    pub quiet: bool,
    /// Whether positions are written with the text.
    pub show_position: bool,
    /// The minimum confidence in thousandths; `None` where what was given
    /// is below zero or no number at all.
    pub min_confidence: Option<u32>,
    /// Where the cleaned-up image is kept, if it is kept.
    pub save_processed: Option<String>,
    /// Whether the exhaustive search runs when the quick one finds nothing.
    pub brute_force: bool,
    /// How many codes the image is expected to hold.
    pub expected_count: usize,
    /// Whether the exhaustive search walks its candidates in random order.
    pub randomize: bool,
    /// Whether the image is inverted before detection.
    pub invert: bool,
    /// Whether a whole directory is processed.
    pub batch: bool,
    /// The directory of a batch run, if one was named.
    pub directory: Option<String>,
    /// Whether directories below it are walked too.
    pub recursive: bool,
    /// Where the report of a batch run goes, if that was said.
    pub report_output: Option<String>,
    /// Whether progress is not to be shown.
    pub no_progress: bool,
    /// Whether output is not to be coloured.
    pub no_color: bool,
}

/// The confidence that stands for a number that is none: it lies beyond
/// certainty, so that no run passes with it.
pub const NO_CONFIDENCE: u32 = u32::MAX;

/// The output format that a command line names: `text`, `json`, `csv` or
/// `verbose`, in lower case.
pub open spec fn spec_format_named(word: Seq<char>) -> Option<OutputFormat> {
    if word == "text"@ {
        Some(OutputFormat::Text)
    } else if word == "json"@ {
        Some(OutputFormat::Json)
    } else if word == "csv"@ {
        Some(OutputFormat::Csv)
    } else if word == "verbose"@ {
        Some(OutputFormat::Verbose)
    } else {
        None
    }
}

/// What the program says of itself when it is asked for help.
pub open spec fn spec_help() -> Seq<Seq<char>> {
    seq![
        "基于 opencv-rust 的二维码解码器"@,
        ""@,
        "用法:"@,
        "  qr_decoder [选项] <输入文件>"@,
        "  qr_decoder --batch [选项] [目录]"@,
        ""@,
        "基本选项:"@,
        "  -o, --output <文件>        输出文件路径"@,
        "  -f, --format <格式>        输出格式 [text|json|csv|verbose]"@,
        "  -p, --preprocess           启用图像预处理"@,
        "  -v, --verbose              详细输出"@,
        "  -q, --quiet                静默模式"@,
        "  --show-position            显示二维码位置信息"@,
        "  --min-confidence <值>      最小置信度阈值 (0.0-1.0)"@,
        "  --save-processed <文件>    保存预处理后的图像"@,
        "  -h, --help                 显示此帮助信息"@,
        "  -V, --version              显示版本信息"@,
        ""@,
        "暴力破解选项:"@,
        "  -b, --brute-force          启用暴力破解模式"@,
        "  -e, --expected-count <数>  预期的二维码数量"@,
        "  -r, --randomize            随机化参数组合"@,
        "  -i, --invert               启用反色处理"@,
        ""@,
        "批量处理选项:"@,
        "  --batch                    启用批量处理模式"@,
        "  -d, --directory <目录>     批量处理目录路径"@,
        "  --recursive                递归处理子目录"@,
        "  --report-output <文件>     批量处理报告输出文件路径"@,
        "  --no-progress              禁用进度显示"@,
        "  --no-color                 禁用彩色输出"@,
        ""@,
        "支持的图像格式:"@,
        "  jpg, jpeg, png, bmp, tiff, tif, webp"@,
        ""@,
        "示例:"@,
        "  qr_decoder image.jpg"@,
        "  qr_decoder -f json -o result.json image.png"@,
        "  qr_decoder --preprocess --verbose image.jpg"@,
        "  qr_decoder --min-confidence 0.8 --show-position image.png"@,
        "  qr_decoder --batch -d ./test --recursive"@,
        "  qr_decoder --batch --directory ./images --report-output report.json"@,
    ]
}

/// What the program says when it is asked for its version.
pub open spec fn spec_version() -> Seq<Seq<char>> {
    seq![
        "qr_decoder v0.1.0"@,
        "基于 opencv-rust 的二维码解码器"@,
        "许可证: MIT"@,
    ]
}

/// What the caller found where an output file is to go.
#[derive(Debug)]
pub struct ParentFacts {
    /// The directory that is to hold the file.
    pub path: String,
    /// Whether the directory is there.
    pub present: bool,
    /// Whether files can be created in it.
    pub writable: bool,
}

/// What the caller found on disk for the paths that the arguments name.
#[derive(Debug)]
pub struct PathFacts {
    /// Whether the input of the run is there: the directory of a batch run,
    /// the image otherwise.
    pub target_present: bool,
    /// Whether the input of the run is a directory.
    pub target_is_directory: bool,
    /// The directory that is to hold the results, where they go to a file
    /// whose path has one.
    pub output_parent: Option<ParentFacts>,
    /// The directory that is to hold the cleaned-up image, where it is kept
    /// under a path that has one.
    pub processed_parent: Option<ParentFacts>,
}

/// What is wrong with a run, in the order in which it is looked for.
pub enum Complaint {
    /// The directory of a batch run is missing.
    DirectoryMissing,
    /// The path of a batch run names no directory.
    NotADirectory,
    /// The image is missing.
    InputMissing,
    /// The image is of no format that can be read.
    UnsupportedFormat,
    /// The minimum confidence lies above certainty.
    ConfidenceOutOfRange,
    /// The results cannot be written where they are to go.
    OutputNotWritable,
    /// The cleaned-up image cannot be written where it is to go.
    ProcessedNotWritable,
}

impl ParentFacts {
    /// Whether the directory is there and cannot be written to.
    pub open spec fn blocks(&self) -> bool {
        self.present && !self.writable
    }
}

impl Args {
    /// The directory that a batch run walks: the one that was named for it,
    /// or else the input path.
    pub open spec fn spec_directory(&self) -> String {
        match self.batch_directory {
            Some(d) => d,
            None => self.input_path,
        }
    }

    /// The first thing that is wrong with the run, if anything is. A run
    /// that only explains itself or names its version is never wrong.
    pub open spec fn spec_complaint(&self, facts: &PathFacts) -> Option<Complaint> {
        if self.show_help || self.show_version {
            None
        } else if self.batch_mode && !facts.target_present {
            Some(Complaint::DirectoryMissing)
        } else if self.batch_mode && !facts.target_is_directory {
            Some(Complaint::NotADirectory)
        } else if !self.batch_mode && !facts.target_present {
            Some(Complaint::InputMissing)
        } else if !self.batch_mode && !spec_is_supported(spec_extension(self.input_path@), spec_supported_formats()) {
            Some(Complaint::UnsupportedFormat)
        } else if self.min_confidence > CONFIDENCE_MAX {
            Some(Complaint::ConfidenceOutOfRange)
        } else if facts.output_parent matches Some(p) && p.blocks() {
            Some(Complaint::OutputNotWritable)
        } else if facts.processed_parent matches Some(p) && p.blocks() {
            Some(Complaint::ProcessedNotWritable)
        } else {
            None
        }
    }

    /// Whether `e` is the error that stands for `complaint`.
    pub open spec fn spec_reports(&self, facts: &PathFacts, complaint: Complaint, e: QRDecodeError) -> bool {
        match complaint {
            Complaint::DirectoryMissing => e is IoError && e.detail() == "批量处理目录不存在: "@
                + self.spec_directory()@,
            Complaint::NotADirectory => e is InvalidInput && e.detail() == "批量处理路径必须是目录: "@
                + self.spec_directory()@,
            Complaint::InputMissing => e is IoError && e.detail() == "输入文件不存在: "@
                + self.input_path@,
            Complaint::UnsupportedFormat => e is UnsupportedFormat && e.detail() == "不支持的文件格式: "@
                + self.input_path@ + "\n支持的格式: jpg, jpeg, png, bmp, tiff, tif, webp"@,
            Complaint::ConfidenceOutOfRange => e is InvalidInput && e.detail()
                == "置信度阈值必须在 0.0 到 1.0 之间"@,
            Complaint::OutputNotWritable => e is IoError && e.detail() == "输出目录不可写: "@
                + facts.output_parent->0.path@,
            Complaint::ProcessedNotWritable => e is IoError && e.detail() == "预处理图像输出目录不可写: "@
                + facts.processed_parent->0.path@,
        }
    }

    /// The arguments of a run that has nothing to do but `show_help` or
    /// `show_version`.
    fn idle(show_help: bool, show_version: bool) -> (a: Self)
        ensures
            a.show_help == show_help,
            a.show_version == show_version,
            a.input_path@.len() == 0,
            a.output_path is None,
            a.output_format == OutputFormat::Text,
            !a.preprocess && !a.verbose && !a.quiet && !a.show_position,
            a.min_confidence == 500,
            !a.save_processed,
            a.processed_output_path is None,
            !a.brute_force && !a.randomize && !a.invert,
            a.expected_count == 1,
            !a.batch_mode && !a.recursive,
            a.batch_directory is None && a.report_output is None,
            a.show_progress && a.colored_output,
    {
        Args {
            input_path: String::new(),
            output_path: None,
            output_format: OutputFormat::Text,
            preprocess: false,
            verbose: false,
            quiet: false,
            show_position: false,
            min_confidence: 500,
            save_processed: false,
            processed_output_path: None,
            show_help,
            show_version,
            brute_force: false,
            expected_count: 1,
            randomize: false,
            invert: false,
            batch_mode: false,
            batch_directory: None,
            recursive: false,
            report_output: None,
            show_progress: true,
            colored_output: true,
        }
    }

    /// The arguments of a run that only explains itself.
    pub fn help_args() -> (a: Self)
        ensures
            a.show_help,
            !a.show_version,
            !a.batch_mode,
            a.min_confidence == 500,
            a.expected_count == 1,
            a.show_progress && a.colored_output,
    {
        Self::idle(true, false)
    }

    /// The arguments of a run that only names its version.
    pub fn version_args() -> (a: Self)
        ensures
            !a.show_help,
            a.show_version,
            !a.batch_mode,
            a.min_confidence == 500,
            a.expected_count == 1,
            a.show_progress && a.colored_output,
    {
        Self::idle(false, true)
    }

    /// The run that the first word of the command line settles on its own:
    /// `-h` and `--help` ask for the explanation, `-V` and `--version` for
    /// the version. Every other word leaves the command line to be parsed.
    pub fn parse_first(first: &str) -> (a: Option<Self>)
        ensures
            a is Some <==> first@ == "-h"@ || first@ == "--help"@ || first@ == "-V"@ || first@
                == "--version"@,
            a matches Some(args) ==> args.show_help == (first@ == "-h"@ || first@ == "--help"@)
                && args.show_version == !args.show_help,
    {
        proof {
            reveal_strlit("-h");
            reveal_strlit("--help");
            reveal_strlit("-V");
            reveal_strlit("--version");
        }
        if Self::same(first, "-h") || Self::same(first, "--help") {
            Some(Self::help_args())
        } else if Self::same(first, "-V") || Self::same(first, "--version") {
            Some(Self::version_args())
        } else {
            None
        }
    }

    /// The arguments that the values of a command line stand for.
    ///
    /// A batch run without a path walks the current directory. A run on one
    /// image needs its path, and every run a known output format; both
    /// failures are `InvalidInput`, the missing path first. A confidence that
    /// is no number from zero up is kept as `NO_CONFIDENCE`.
    pub fn from_matches(matches: &ParsedArgs) -> (r: Result<Self, QRDecodeError>)
        ensures
            r is Ok <==> (matches.batch || matches.input is Some) && spec_format_named(matches.format@)
                is Some,
            r matches Ok(a) ==> {
                &&& a.input_path@ == (match matches.input {
                    Some(path) => path@,
                    None => "."@,
                })
                &&& a.output_path == matches.output
                &&& Some(a.output_format) == spec_format_named(matches.format@)
                &&& a.preprocess == matches.preprocess
                &&& a.verbose == matches.verbose
                &&& a.quiet == matches.quiet
                &&& a.show_position == matches.show_position
                &&& a.min_confidence == (match matches.min_confidence {
                    Some(c) => c,
                    None => NO_CONFIDENCE,
                })
                &&& a.save_processed == (matches.save_processed is Some)
                &&& a.processed_output_path == matches.save_processed
                &&& !a.show_help
                &&& !a.show_version
                &&& a.brute_force == matches.brute_force
                &&& a.expected_count == matches.expected_count
                &&& a.randomize == matches.randomize
                &&& a.invert == matches.invert
                &&& a.batch_mode == matches.batch
                &&& a.batch_directory == matches.directory
                &&& a.recursive == matches.recursive
                &&& a.report_output == matches.report_output
                &&& a.show_progress == !matches.no_progress
                &&& a.colored_output == !matches.no_color
            },
            r matches Err(e) ==> e is InvalidInput && e.detail() == (if !matches.batch && matches.input
                is None {
                "缺少输入文件路径"@
            } else {
                "无效的输出格式"@
            }),
    {
        let input_path = match &matches.input {
            Some(path) => path.clone(),
            None => {
                if !matches.batch {
                    return Err(QRDecodeError::invalid_input(String::from_str("缺少输入文件路径")));
                }
                String::from_str(".")
            },
        };
        let format: &str = matches.format.as_str();
        let output_format = if Self::same(format, "text") {
            OutputFormat::Text
        } else if Self::same(format, "json") {
            OutputFormat::Json
        } else if Self::same(format, "csv") {
            OutputFormat::Csv
        } else if Self::same(format, "verbose") {
            OutputFormat::Verbose
        } else {
            return Err(QRDecodeError::invalid_input(String::from_str("无效的输出格式")));
        };
        Ok(
            Args {
                input_path,
                output_path: copy_optional_text(&matches.output),
                output_format,
                preprocess: matches.preprocess,
                verbose: matches.verbose,
                quiet: matches.quiet,
                show_position: matches.show_position,
                min_confidence: match matches.min_confidence {
                    Some(c) => c,
                    None => NO_CONFIDENCE,
                },
                save_processed: matches.save_processed.is_some(),
                processed_output_path: copy_optional_text(&matches.save_processed),
                show_help: false,
                show_version: false,
                brute_force: matches.brute_force,
                expected_count: matches.expected_count,
                randomize: matches.randomize,
                invert: matches.invert,
                batch_mode: matches.batch,
                batch_directory: copy_optional_text(&matches.directory),
                recursive: matches.recursive,
                report_output: copy_optional_text(&matches.report_output),
                show_progress: !matches.no_progress,
                colored_output: !matches.no_color,
            },
        )
    }

    /// The lines that explain the program.
    pub fn print_help() -> (lines: Vec<String>)
        ensures
            spec_lines_of(lines@) == spec_help(),
    {
        let mut lines: Vec<String> = Vec::new();
        lines.push(String::from_str("基于 opencv-rust 的二维码解码器"));
        lines.push(String::from_str(""));
        lines.push(String::from_str("用法:"));
        lines.push(String::from_str("  qr_decoder [选项] <输入文件>"));
        lines.push(String::from_str("  qr_decoder --batch [选项] [目录]"));
        lines.push(String::from_str(""));
        lines.push(String::from_str("基本选项:"));
        lines.push(String::from_str("  -o, --output <文件>        输出文件路径"));
        lines.push(String::from_str("  -f, --format <格式>        输出格式 [text|json|csv|verbose]"));
        lines.push(String::from_str("  -p, --preprocess           启用图像预处理"));
        lines.push(String::from_str("  -v, --verbose              详细输出"));
        lines.push(String::from_str("  -q, --quiet                静默模式"));
        lines.push(String::from_str("  --show-position            显示二维码位置信息"));
        lines.push(String::from_str("  --min-confidence <值>      最小置信度阈值 (0.0-1.0)"));
        lines.push(String::from_str("  --save-processed <文件>    保存预处理后的图像"));
        lines.push(String::from_str("  -h, --help                 显示此帮助信息"));
        lines.push(String::from_str("  -V, --version              显示版本信息"));
        lines.push(String::from_str(""));
        lines.push(String::from_str("暴力破解选项:"));
        lines.push(String::from_str("  -b, --brute-force          启用暴力破解模式"));
        lines.push(String::from_str("  -e, --expected-count <数>  预期的二维码数量"));
        lines.push(String::from_str("  -r, --randomize            随机化参数组合"));
        lines.push(String::from_str("  -i, --invert               启用反色处理"));
        lines.push(String::from_str(""));
        lines.push(String::from_str("批量处理选项:"));
        lines.push(String::from_str("  --batch                    启用批量处理模式"));
        lines.push(String::from_str("  -d, --directory <目录>     批量处理目录路径"));
        lines.push(String::from_str("  --recursive                递归处理子目录"));
        lines.push(String::from_str("  --report-output <文件>     批量处理报告输出文件路径"));
        lines.push(String::from_str("  --no-progress              禁用进度显示"));
        lines.push(String::from_str("  --no-color                 禁用彩色输出"));
        lines.push(String::from_str(""));
        lines.push(String::from_str("支持的图像格式:"));
        lines.push(String::from_str("  jpg, jpeg, png, bmp, tiff, tif, webp"));
        lines.push(String::from_str(""));
        lines.push(String::from_str("示例:"));
        lines.push(String::from_str("  qr_decoder image.jpg"));
        lines.push(String::from_str("  qr_decoder -f json -o result.json image.png"));
        lines.push(String::from_str("  qr_decoder --preprocess --verbose image.jpg"));
        lines.push(String::from_str("  qr_decoder --min-confidence 0.8 --show-position image.png"));
        lines.push(String::from_str("  qr_decoder --batch -d ./test --recursive"));
        lines.push(String::from_str("  qr_decoder --batch --directory ./images --report-output report.json"));
        assert(spec_lines_of(lines@) =~= spec_help());
        lines
    }

    /// The lines that name the version of the program.
    pub fn print_version() -> (lines: Vec<String>)
        ensures
            spec_lines_of(lines@) == spec_version(),
    {
        let mut lines: Vec<String> = Vec::new();
        lines.push(String::from_str("qr_decoder v0.1.0"));
        lines.push(String::from_str("基于 opencv-rust 的二维码解码器"));
        lines.push(String::from_str("许可证: MIT"));
        assert(spec_lines_of(lines@) =~= spec_version());
        lines
    }

    /// Whether two texts are the same.
    fn same(a: &str, b: &str) -> (r: bool)
        ensures
            r == (a@ == b@),
    {
        let n: usize = a.unicode_len();
        if n != b.unicode_len() {
            return false;
        }
        let mut i: usize = 0;
        while i < n
            invariant
                i <= n,
                n == a@.len(),
                n == b@.len(),
                forall|j: int| 0 <= j < i ==> a@[j] == b@[j],
            decreases n - i,
        {
            if a.get_char(i) != b.get_char(i) {
                return false;
            }
            i += 1;
        }
        assert(a@ =~= b@);
        true
    }

    /// Judges the run against what was found on disk.
    ///
    /// The first thing that is wrong is reported: a missing directory or
    /// image and a directory that cannot be written to as `IoError`, a path
    /// that is no directory and a confidence above certainty as
    /// `InvalidInput`, an image of unknown format as `UnsupportedFormat`.
    pub fn validate(&self, facts: &PathFacts) -> (r: Result<(), QRDecodeError>)
        ensures
            r is Ok <==> self.spec_complaint(facts) is None,
            r matches Err(e) ==> self.spec_complaint(facts) matches Some(c) && self.spec_reports(facts, c, e),
    {
        if self.show_help || self.show_version {
            return Ok(());
        }
        if self.batch_mode {
            let directory: &String = match &self.batch_directory {
                Some(d) => d,
                None => &self.input_path,
            };
            if !facts.target_present {
                return Err(
                    QRDecodeError::IoError(
                        String::from_str("批量处理目录不存在: ").concat(directory.as_str()),
                    ),
                );
            }
            if !facts.target_is_directory {
                return Err(
                    QRDecodeError::invalid_input(
                        String::from_str("批量处理路径必须是目录: ").concat(directory.as_str()),
                    ),
                );
            }
        } else {
            if !facts.target_present {
                return Err(
                    QRDecodeError::IoError(
                        String::from_str("输入文件不存在: ").concat(self.input_path.as_str()),
                    ),
                );
            }
            if !is_supported_path(self.input_path.as_str()) {
                return Err(
                    QRDecodeError::UnsupportedFormat(
                        String::from_str("不支持的文件格式: ").concat(self.input_path.as_str()).concat(
                            "\n支持的格式: jpg, jpeg, png, bmp, tiff, tif, webp",
                        ),
                    ),
                );
            }
        }
        if self.min_confidence > CONFIDENCE_MAX {
            return Err(QRDecodeError::invalid_input(String::from_str("置信度阈值必须在 0.0 到 1.0 之间")));
        }
        match &facts.output_parent {
            Some(p) => {
                if p.present && !p.writable {
                    return Err(
                        QRDecodeError::IoError(String::from_str("输出目录不可写: ").concat(p.path.as_str())),
                    );
                }
            },
            None => {},
        }
        match &facts.processed_parent {
            Some(p) => {
                if p.present && !p.writable {
                    return Err(
                        QRDecodeError::IoError(
                            String::from_str("预处理图像输出目录不可写: ").concat(p.path.as_str()),
                        ),
                    );
                }
            },
            None => {},
        }
        Ok(())
    }

    /// Whether the file at `path` is, by its name, an image that can be read.
    pub fn is_supported_format(path: &str) -> (supported: bool)
        ensures
            supported == spec_is_supported(spec_extension(path@), spec_supported_formats()),
    {
        is_supported_path(path)
    }

    /// The extensions of the image formats that can be read.
    pub fn supported_formats() -> (formats: Vec<&'static str>)
        ensures
            formats@.len() == 7,
            forall|i: int| 0 <= i < 7 ==> (#[trigger] formats@[i])@ == spec_supported_formats()[i],
    {
        supported_formats()
    }

    /// The directory that a batch run walks; `None` where the run is no
    /// batch run.
    pub fn get_batch_directory(&self) -> (d: Option<&String>)
        ensures
            d is Some <==> self.batch_mode,
            d matches Some(dir) ==> *dir == self.spec_directory(),
    {
        if self.batch_mode {
            match &self.batch_directory {
                Some(d) => Some(d),
                None => Some(&self.input_path),
            }
        } else {
            None
        }
    }

    /// Whether a whole directory is processed.
    pub fn is_batch_mode(&self) -> (b: bool)
        ensures
            b == self.batch_mode,
    {
        self.batch_mode
    }

    /// Whether directories below the batch directory are walked too.
    pub fn is_recursive(&self) -> (b: bool)
        ensures
            b == (self.recursive && self.batch_mode),
    {
        self.recursive && self.batch_mode
    }

    /// Where the report of a batch run goes.
    pub fn get_report_output(&self) -> (p: Option<&String>)
        ensures
            p is Some <==> self.report_output is Some,
            p matches Some(path) ==> Some(*path) == self.report_output,
    {
        self.report_output.as_ref()
    }

    /// Whether progress is shown: not in a quiet run.
    pub fn should_show_progress(&self) -> (b: bool)
        ensures
            b == (self.show_progress && !self.quiet),
    {
        self.show_progress && !self.quiet
    }

    /// Whether output is coloured: not in a quiet run.
    pub fn is_colored_output(&self) -> (b: bool)
        ensures
            b == (self.colored_output && !self.quiet),
    {
        self.colored_output && !self.quiet
    }
}

} // verus!

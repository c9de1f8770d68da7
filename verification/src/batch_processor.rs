//! Running the pipeline over the image files of a directory.
//!
//! Walking the directory and decoding a file are the caller's part. This
//! module says which files of the walk are images, keeps the books of a
//! run, and derives speed, progress and the time that is left from them.
//!
//! Times are milliseconds.

use crate::brute_force_decoder::BruteForceDecoder;
use crate::clock::{elapsed_between, now_millis};
use crate::error::QRDecodeError;
use crate::formats::{extension_of, is_supported_by, spec_extension, spec_is_supported};
use crate::qr_decoder::{raised, spec_raised};
use crate::report::{report, spec_report};
use crate::types::QrResult;
use vstd::prelude::*;

verus! {

/// What steers a batch run.
#[derive(Debug)]
pub struct BatchConfig {
    /// The directory whose files are processed.
    pub directory: String,
    /// Whether directories below it are walked too.
    pub recursive: bool,
    /// Where the report goes, if one is wanted.
    pub output_report: Option<String>,
    /// The extensions of the files that are taken for images.
    pub supported_formats: Vec<String>,
    /// How many codes each image is expected to hold.
    pub expected_count: usize,
    /// Whether the exhaustive search walks its candidates in random order.
    pub randomize: bool,
    /// Whether progress is shown.
    pub show_progress: bool,
    /// Whether output is coloured.
    pub colored_output: bool,
    /// Whether details are narrated.
    pub verbose: bool,
    /// Whether nothing but results is written.
    pub quiet: bool,
}

/// The extensions that a batch run takes for images unless told otherwise.
pub open spec fn spec_default_formats() -> Seq<Seq<char>> {
    seq!["png"@, "jpg"@, "jpeg"@, "bmp"@, "tiff"@, "webp"@]
}

impl BatchConfig {
    /// The extensions of the files that are taken for images, as texts.
    pub open spec fn spec_formats(&self) -> Seq<Seq<char>> {
        Seq::new(self.supported_formats@.len(), |i: int| self.supported_formats@[i]@)
    }
}

impl Default for BatchConfig {
    fn default() -> (c: Self)
        ensures
            c.directory@ == "."@,
            !c.recursive,
            c.output_report is None,
            c.spec_formats() == spec_default_formats(),
            c.expected_count == 1,
            !c.randomize,
            c.show_progress,
            c.colored_output,
            !c.verbose,
            !c.quiet,
    {
        let mut supported_formats: Vec<String> = Vec::new();
        supported_formats.push(String::from_str("png"));
        supported_formats.push(String::from_str("jpg"));
        supported_formats.push(String::from_str("jpeg"));
        supported_formats.push(String::from_str("bmp"));
        supported_formats.push(String::from_str("tiff"));
        supported_formats.push(String::from_str("webp"));
        let c = Self {
            directory: String::from_str("."),
            recursive: false,
            output_report: None,
            supported_formats,
            expected_count: 1,
            randomize: false,
            show_progress: true,
            colored_output: true,
            verbose: false,
            quiet: false,
        };
        assert(c.spec_formats() =~= spec_default_formats());
        c
    }
}

/// What became of one file of a batch run.
#[derive(Debug)]
pub struct BatchResult {
    /// The file.
    pub file_path: String,
    /// The codes that were read from it.
    pub results: Vec<QrResult>,
    /// How long the file took.
    pub processing_time: u64,
    /// Whether any code was read.
    pub success: bool,
    /// Why the file could not be processed, where it could not.
    pub error: Option<String>,
}

/// The books of a batch run.
#[derive(Debug, Clone, Copy, PartialEq, Eq, Structural)]
pub struct BatchStats {
    /// Files that the run sets out to process.
    pub total_files: usize,
    /// Files that were processed, whatever came of them.
    pub processed_files: usize,
    /// Files from which a code was read.
    pub successful_files: usize,
    /// Files from which none was read.
    pub failed_files: usize,
    /// Codes read over all files.
    pub total_qr_codes: usize,
    /// When the run began: a reading of the wall clock.
    pub start_time: i64,
    /// The sum of the times that the files took.
    pub total_processing_time: u64,
}

/// Files per second in thousandths, after `processed` files in `elapsed`
/// milliseconds: zero before the first file and where no time has passed.
pub open spec fn spec_speed(processed: int, elapsed: int) -> int {
    if processed <= 0 || elapsed <= 0 {
        0
    } else {
        processed * 1_000_000 / elapsed
    }
}

/// The time that is left, after `processed` of `total` files in `elapsed`
/// milliseconds: the files that are left, divided by the files per
/// millisecond so far. It is zero before the first file and for an empty
/// run.
pub open spec fn spec_remaining_time(total: int, processed: int, elapsed: int) -> int {
    if processed <= 0 || total <= processed || elapsed <= 0 {
        0
    } else {
        (total - processed) * elapsed / processed
    }
}

/// A time as a `u64` can hold it.
pub open spec fn spec_capped_time(t: int) -> int {
    if t > u64::MAX {
        u64::MAX as int
    } else {
        t
    }
}

/// The share of the files that are processed, in hundredths of a percent;
/// zero for an empty run.
pub open spec fn spec_progress(total: int, processed: int) -> int {
    if total <= 0 {
        0
    } else {
        processed * 10_000 / total
    }
}

/// Before the first file, and for a run without files, no time is left.
pub proof fn lemma_nothing_left_at_start(total: int, processed: int, elapsed: int)
    requires
        processed == 0 || total == 0,
    ensures
        spec_remaining_time(total, processed, elapsed) == 0,
{
}

/// At constant throughput the time that is left shrinks with every file:
/// where each file takes `per_file` milliseconds, so many are left times
/// that, which is less after `later` files than after `earlier`.
pub proof fn lemma_remaining_time_decreases(total: int, earlier: int, later: int, per_file: int)
    requires
        0 < earlier < later <= total,
        per_file > 0,
    ensures
        spec_remaining_time(total, earlier, earlier * per_file) == (total - earlier) * per_file,
        spec_remaining_time(total, later, later * per_file) == (total - later) * per_file,
        spec_remaining_time(total, later, later * per_file) < spec_remaining_time(
            total,
            earlier,
            earlier * per_file,
        ),
{
    lemma_constant_throughput(total, earlier, per_file);
    lemma_constant_throughput(total, later, per_file);
    assert((total - later) * per_file < (total - earlier) * per_file) by (nonlinear_arith)
        requires
            earlier < later,
            per_file > 0,
    ;
}

/// Where each of `processed` files took `per_file` milliseconds, the time
/// that is left is that of the files that are left.
proof fn lemma_constant_throughput(total: int, processed: int, per_file: int)
    requires
        0 < processed <= total,
        per_file > 0,
    ensures
        spec_remaining_time(total, processed, processed * per_file) == (total - processed) * per_file,
{
    let left = total - processed;
    assert(processed * per_file > 0) by (nonlinear_arith)
        requires
            processed > 0,
            per_file > 0,
    ;
    if left > 0 {
        assert(left * (processed * per_file) == processed * (left * per_file)) by (nonlinear_arith);
        vstd::arithmetic::div_mod::lemma_div_multiples_vanish(left * per_file, processed);
        assert((total - processed) * (processed * per_file) / processed == left * per_file);
    } else {
        assert(left * per_file == 0) by (nonlinear_arith)
            requires
                left == 0,
        ;
    }
}

impl Default for BatchStats {
    fn default() -> (s: Self)
        ensures
            s.total_files == 0,
            s.processed_files == 0,
            s.successful_files == 0,
            s.failed_files == 0,
            s.total_qr_codes == 0,
            s.total_processing_time == 0,
    {
        Self {
            total_files: 0,
            processed_files: 0,
            successful_files: 0,
            failed_files: 0,
            total_qr_codes: 0,
            start_time: now_millis(),
            total_processing_time: 0,
        }
    }
}

impl BatchStats {
    /// The books of a run that begins now and has processed nothing yet.
    pub fn new() -> (s: Self)
        ensures
            s.total_files == 0,
            s.processed_files == 0,
            s.successful_files == 0,
            s.failed_files == 0,
            s.total_qr_codes == 0,
            s.total_processing_time == 0,
    {
        Self {
            total_files: 0,
            processed_files: 0,
            successful_files: 0,
            failed_files: 0,
            total_qr_codes: 0,
            start_time: now_millis(),
            total_processing_time: 0,
        }
    }

    /// Files per second in thousandths, `elapsed` milliseconds into the run.
    pub fn processing_speed_after(&self, elapsed: u64) -> (speed: u128)
        ensures
            speed == spec_speed(self.processed_files as int, elapsed as int),
    {
        if self.processed_files == 0 || elapsed == 0 {
            0
        } else {
            (self.processed_files as u128) * 1_000_000 / (elapsed as u128)
        }
    }

    /// Files per second in thousandths, as of now.
    pub fn processing_speed(&self) -> (speed: u128)
        ensures
            self.processed_files == 0 ==> speed == 0,
            exists|elapsed: u64| speed == #[trigger] spec_speed(self.processed_files as int, elapsed as int),
    {
        let elapsed: u64 = elapsed_between(self.start_time, now_millis());
        let speed = self.processing_speed_after(elapsed);
        assert(speed == spec_speed(self.processed_files as int, elapsed as int));
        speed
    }

    /// The time that is left, `elapsed` milliseconds into the run; times
    /// beyond what a `u64` holds are cut there.
    pub fn estimated_remaining_time_after(&self, elapsed: u64) -> (left: u64)
        ensures
            left == spec_capped_time(
                spec_remaining_time(self.total_files as int, self.processed_files as int, elapsed as int),
            ),
    {
        if self.processed_files == 0 || self.total_files <= self.processed_files || elapsed == 0 {
            return 0;
        }
        let files_left: u128 = (self.total_files - self.processed_files) as u128;
        let spent: u128 = elapsed as u128;
        assert(files_left * spent <= 0xffff_ffff_ffff_ffff * 0xffff_ffff_ffff_ffff) by (nonlinear_arith)
            requires
                0 <= files_left <= 0xffff_ffff_ffff_ffff,
                0 <= spent <= 0xffff_ffff_ffff_ffff,
        ;
        let left: u128 = files_left * spent / (self.processed_files as u128);
        if left > u64::MAX as u128 {
            u64::MAX
        } else {
            left as u64
        }
    }

    /// The time that is left, as of now: zero before the first file and for
    /// a run without files.
    pub fn estimated_remaining_time(&self) -> (left: u64)
        ensures
            self.processed_files == 0 || self.total_files == 0 ==> left == 0,
            exists|elapsed: u64|
                left == spec_capped_time(
                    #[trigger] spec_remaining_time(
                        self.total_files as int,
                        self.processed_files as int,
                        elapsed as int,
                    ),
                ),
    {
        let elapsed: u64 = elapsed_between(self.start_time, now_millis());
        let left = self.estimated_remaining_time_after(elapsed);
        assert(left == spec_capped_time(
            spec_remaining_time(self.total_files as int, self.processed_files as int, elapsed as int),
        ));
        left
    }

    /// The share of the files that are processed, in hundredths of a
    /// percent.
    pub fn progress_percentage(&self) -> (share: u128)
        ensures
            share == spec_progress(self.total_files as int, self.processed_files as int),
    {
        if self.total_files == 0 {
            0
        } else {
            (self.processed_files as u128) * 10_000 / (self.total_files as u128)
        }
    }

    /// The books after one more file that took `processing_time` and
    /// yielded `codes` codes, `success` saying whether it counts as read.
    pub open spec fn spec_record(self, success: bool, codes: nat, processing_time: u64) -> BatchStats {
        BatchStats {
            total_files: self.total_files,
            processed_files: spec_raised(self.processed_files, 1) as usize,
            successful_files: if success {
                spec_raised(self.successful_files, 1) as usize
            } else {
                self.successful_files
            },
            failed_files: if success {
                self.failed_files
            } else {
                spec_raised(self.failed_files, 1) as usize
            },
            total_qr_codes: if success {
                spec_raised(self.total_qr_codes, codes as int) as usize
            } else {
                self.total_qr_codes
            },
            start_time: self.start_time,
            total_processing_time: spec_capped_time(self.total_processing_time + processing_time) as u64,
        }
    }

    /// Enters one more file into the books.
    pub fn record(&mut self, result: &BatchResult)
        ensures
            *final(self) == old(self).spec_record(result.success, result.results@.len(), result.processing_time),
    {
        self.processed_files = raised(self.processed_files, 1);
        self.total_processing_time =
        if result.processing_time > u64::MAX - self.total_processing_time {
            u64::MAX
        } else {
            self.total_processing_time + result.processing_time
        };
        if result.success {
            self.successful_files = raised(self.successful_files, 1);
            self.total_qr_codes = raised(self.total_qr_codes, result.results.len());
        } else {
            self.failed_files = raised(self.failed_files, 1);
        }
    }
}

/// What a walk of the directory can meet.
#[derive(Debug, Clone, Copy, PartialEq, Eq, Structural)]
pub enum EntryKind {
    /// A regular file.
    File,
    /// A directory.
    Directory,
    /// Anything else.
    Other,
}

/// What a walk does with an entry.
#[derive(Debug, Clone, Copy, PartialEq, Eq, Structural)]
pub enum Visit {
    /// The entry is an image: it is processed.
    Collect,
    /// The entry is a directory that is walked too.
    Descend,
    /// The entry is passed over.
    Skip,
}

/// Whether a file is taken for an image under the given formats.
pub open spec fn is_image(formats: Seq<Seq<char>>) -> spec_fn(String) -> bool {
    |path: String| spec_is_supported(spec_extension(path@), formats)
}

/// How many of the files are taken for images.
pub open spec fn count_images(files: Seq<String>, formats: Seq<Seq<char>>) -> nat {
    files.filter(is_image(formats)).len()
}

/// Whether `result` is what became of `file`, given what decoding it came
/// to and how long it took: a file counts as read when at least one code
/// was read from it, and a failure is kept as text.
pub open spec fn spec_is_outcome(
    result: BatchResult,
    file: Seq<char>,
    decoded: Result<Vec<QrResult>, QRDecodeError>,
    processing_time: u64,
) -> bool {
    &&& result.file_path@ == file
    &&& result.processing_time == processing_time
    &&& match decoded {
        Ok(codes) => result.results == codes && result.success == (codes@.len() > 0) && result.error is None,
        Err(e) => result.results@.len() == 0 && !result.success && match result.error {
            Some(text) => text@ == e.heading() + e.detail(),
            None => false,
        },
    }
}

/// The batch run.
pub struct BatchProcessor {
    config: BatchConfig,
    decoder: BruteForceDecoder,
}

/// The state of a run: the files it sets out to process, what became of
/// those that are done, and the books.
pub struct BatchRun {
    files: Vec<String>,
    results: Vec<BatchResult>,
    stats: BatchStats,
}

impl BatchProcessor {
    /// What steers the run.
    pub closed spec fn spec_config(&self) -> BatchConfig {
        self.config
    }

    /// The search that decodes the files.
    pub closed spec fn spec_decoder(&self) -> BruteForceDecoder {
        self.decoder
    }

    /// A batch run that decodes with the given search. `decoder` is the
    /// outcome of building that search; its failure is the failure of the
    /// run.
    pub fn new(config: BatchConfig, decoder: Result<BruteForceDecoder, QRDecodeError>) -> (r: Result<Self, QRDecodeError>)
        ensures
            match decoder {
                Ok(d) => r matches Ok(p) && p.spec_config() == config && p.spec_decoder() == d,
                Err(e) => r == Err::<Self, QRDecodeError>(e),
            },
    {
        match decoder {
            Ok(decoder) => Ok(Self { config, decoder }),
            Err(e) => Err(e),
        }
    }

    /// What steers the run.
    pub fn config(&self) -> (c: &BatchConfig)
        ensures
            *c == self.spec_config(),
    {
        &self.config
    }

    /// The search that decodes the files.
    pub fn decoder_mut(&mut self) -> (d: &mut BruteForceDecoder)
        ensures
            *d == old(self).spec_decoder(),
            final(self).spec_decoder() == *final(d),
            final(self).spec_config() == old(self).spec_config(),
    {
        &mut self.decoder
    }

    /// Whether the path that the run is pointed at can be walked. `present`
    /// says whether there is anything at the path, `is_directory` whether it
    /// is a directory. Both failures are `InvalidInput` and name the path
    /// between double quotes.
    pub fn check_directory(&self, path: &str, present: bool, is_directory: bool) -> (r: Result<(), QRDecodeError>)
        ensures
            r is Ok <==> present && is_directory,
            r matches Err(e) ==> e is InvalidInput && e.detail() == (if !present {
                "目录不存在: \""@
            } else {
                "路径不是目录: \""@
            }) + path@ + "\""@,
    {
        if !present {
            return Err(
                QRDecodeError::invalid_input(String::from_str("目录不存在: \"").concat(path).concat("\"")),
            );
        }
        if !is_directory {
            return Err(
                QRDecodeError::invalid_input(
                    String::from_str("路径不是目录: \"").concat(path).concat("\""),
                ),
            );
        }
        Ok(())
    }

    /// What the walk does with the entry of the given kind at `path`: files
    /// are collected where they are images, directories are walked where
    /// the run is recursive, and everything else is passed over.
    pub fn visit(&self, kind: EntryKind, path: &str) -> (v: Visit)
        ensures
            v == match kind {
                EntryKind::File => if spec_is_supported(
                    spec_extension(path@),
                    self.spec_config().spec_formats(),
                ) {
                    Visit::Collect
                } else {
                    Visit::Skip
                },
                EntryKind::Directory => if self.spec_config().recursive {
                    Visit::Descend
                } else {
                    Visit::Skip
                },
                EntryKind::Other => Visit::Skip,
            },
    {
        match kind {
            EntryKind::File => if self.is_supported_image(path) {
                Visit::Collect
            } else {
                Visit::Skip
            },
            EntryKind::Directory => if self.config.recursive {
                Visit::Descend
            } else {
                Visit::Skip
            },
            EntryKind::Other => Visit::Skip,
        }
    }

    /// Whether the file at `path` is, by its name, taken for an image.
    pub fn is_supported_image(&self, path: &str) -> (supported: bool)
        ensures
            supported == spec_is_supported(spec_extension(path@), self.spec_config().spec_formats()),
    {
        is_supported_by(extension_of(path), &self.config.supported_formats)
    }

    /// Of the files that a walk met, those that are taken for images, in
    /// the order of the walk.
    pub fn collect_image_files(&self, listed: &Vec<String>) -> (files: Vec<String>)
        ensures
            files@ == listed@.filter(is_image(self.spec_config().spec_formats())),
    {
        let ghost formats = self.spec_config().spec_formats();
        let mut files: Vec<String> = Vec::new();
        let mut i: usize = 0;
        while i < listed.len()
            invariant
                i <= listed.len(),
                formats == self.spec_config().spec_formats(),
                files@ == listed@.take(i as int).filter(is_image(formats)),
            decreases listed.len() - i,
        {
            proof {
                reveal(Seq::filter);
                assert(listed@.take(i + 1).drop_last() =~= listed@.take(i as int));
                assert(listed@.take(i + 1).last() == listed@[i as int]);
            }
            if self.is_supported_image(listed[i].as_str()) {
                files.push(listed[i].clone());
            }
            i += 1;
        }
        proof {
            assert(listed@.take(listed.len() as int) =~= listed@);
        }
        files
    }

    /// What became of a file, given what decoding it came to and how long
    /// it took. A file counts as read when at least one code was read from
    /// it; a failure is kept as text and does not end the run.
    pub fn process_file(
        &self,
        file_path: &str,
        decoded: Result<Vec<QrResult>, QRDecodeError>,
        processing_time: u64,
    ) -> (result: BatchResult)
        ensures
            spec_is_outcome(result, file_path@, decoded, processing_time),
    {
        outcome_of(file_path, decoded, processing_time)
    }

    /// The report of a run, `elapsed` milliseconds after it began.
    pub fn report_after(&self, results: &Vec<BatchResult>, stats: &BatchStats, elapsed: u64) -> (text: String)
        ensures
            text@ == spec_report(
                self.spec_config().directory@,
                self.spec_config().recursive,
                results@,
                *stats,
                elapsed as nat,
            ),
    {
        report(&self.config, results, stats, elapsed)
    }

    /// The report of a run as of now: that of `report_after` for the time
    /// that has passed since the books were opened.
    pub fn generate_report(&self, results: &Vec<BatchResult>, stats: &BatchStats) -> (text: String)
        ensures
            exists|elapsed: u64|
                text@ == #[trigger] spec_report(
                    self.spec_config().directory@,
                    self.spec_config().recursive,
                    results@,
                    *stats,
                    elapsed as nat,
                ),
    {
        let elapsed: u64 = elapsed_between(stats.start_time, now_millis());
        let text = self.report_after(results, stats, elapsed);
        assert(text@ == spec_report(
            self.spec_config().directory@,
            self.spec_config().recursive,
            results@,
            *stats,
            elapsed as nat,
        ));
        text
    }

    /// Where the report of the run goes, if one is wanted.
    pub fn report_path(&self) -> (path: Option<&String>)
        ensures
            match path {
                Some(p) => self.spec_config().output_report == Some(*p),
                None => self.spec_config().output_report is None,
            },
    {
        self.config.output_report.as_ref()
    }

    /// What saving the report came to, given what writing its file came
    /// to: `written` is `Ok` where the file was written or none was wanted,
    /// and holds the reason where it could not be written, which is an
    /// `OutputError`.
    pub fn save_report(&self, written: Result<(), String>) -> (r: Result<(), QRDecodeError>)
        ensures
            r is Ok <==> written is Ok,
            r matches Err(e) ==> e is OutputError && e.detail() == "保存报告失败: "@ + written->Err_0@,
    {
        match written {
            Ok(()) => Ok(()),
            Err(why) => Err(
                QRDecodeError::output_error(String::from_str("保存报告失败: ").concat(why.as_str())),
            ),
        }
    }

    /// Begins a run over what a walk of the directory met: the run sets out
    /// with exactly the files that are taken for images, in the order of the
    /// walk. The books are opened with their number, and nothing is
    /// processed yet.
    pub fn process_batch(&self, listed: &Vec<String>) -> (run: BatchRun)
        ensures
            run.spec_files() == listed@.filter(is_image(self.spec_config().spec_formats())),
            run.spec_results().len() == 0,
            run.spec_stats().total_files == count_images(listed@, self.spec_config().spec_formats()),
            run.spec_stats().processed_files == 0,
            run.spec_stats().successful_files == 0,
            run.spec_stats().failed_files == 0,
            run.spec_stats().total_qr_codes == 0,
    {
        let files = self.collect_image_files(listed);
        let mut stats = BatchStats::new();
        stats.total_files = files.len();
        BatchRun { files, results: Vec::new(), stats }
    }
}

/// What became of a file, given what decoding it came to and how long it
/// took.
pub fn outcome_of(
    file_path: &str,
    decoded: Result<Vec<QrResult>, QRDecodeError>,
    processing_time: u64,
) -> (result: BatchResult)
    ensures
        spec_is_outcome(result, file_path@, decoded, processing_time),
{
    match decoded {
        Ok(codes) => {
            let success: bool = codes.len() > 0;
            BatchResult {
                file_path: String::from_str(file_path),
                results: codes,
                processing_time,
                success,
                error: None,
            }
        },
        Err(e) => BatchResult {
            file_path: String::from_str(file_path),
            results: Vec::new(),
            processing_time,
            success: false,
            error: Some(e.to_string()),
        },
    }
}

impl BatchRun {
    /// The files that the run sets out to process, in their order.
    pub closed spec fn spec_files(&self) -> Seq<String> {
        self.files@
    }

    /// What became of the files that are done, in their order.
    pub closed spec fn spec_results(&self) -> Seq<BatchResult> {
        self.results@
    }

    /// The books.
    pub closed spec fn spec_stats(&self) -> BatchStats {
        self.stats
    }

    /// What holds of every run: the books count the files that the run set
    /// out with and those that are done, and the files are done in their
    /// order.
    #[verifier::type_invariant]
    closed spec fn well_formed(&self) -> bool {
        &&& self.stats.total_files == self.files@.len()
        &&& self.stats.processed_files == self.results@.len()
        &&& self.results@.len() <= self.files@.len()
        &&& self.stats.successful_files + self.stats.failed_files == self.results@.len()
        &&& forall|i: int|
            0 <= i < self.results@.len() ==> (#[trigger] self.results@[i]).file_path@ == self.files@[i]@
    }

    /// The file that is to be processed next; `None` once all are done.
    pub fn current(&self) -> (file: Option<&String>)
        ensures
            file is Some <==> self.spec_results().len() < self.spec_files().len(),
            file matches Some(f) ==> *f == self.spec_files()[self.spec_results().len() as int],
    {
        proof {
            use_type_invariant(self);
        }
        if self.results.len() < self.files.len() {
            Some(&self.files[self.results.len()])
        } else {
            None
        }
    }

    /// The books. In every run they balance: as many files are processed
    /// as have an outcome, each of them counts exactly once as read or as
    /// not read, and no more are processed than the run set out with.
    pub fn stats(&self) -> (s: &BatchStats)
        ensures
            *s == self.spec_stats(),
            s.total_files == self.spec_files().len(),
            s.processed_files == self.spec_results().len(),
            s.processed_files <= s.total_files,
            s.successful_files + s.failed_files == s.processed_files,
    {
        proof {
            use_type_invariant(self);
        }
        &self.stats
    }

    /// Enters the outcome of the file that was processed last: what
    /// decoding it came to and how long it took.
    ///
    /// Whatever the outcome, a failure included, exactly one more file
    /// counts as processed. Once all files are done there is nothing to
    /// enter, and nothing changes.
    pub fn record(&mut self, decoded: Result<Vec<QrResult>, QRDecodeError>, processing_time: u64)
        ensures
            final(self).spec_files() == old(self).spec_files(),
            final(self).spec_stats().total_files == old(self).spec_stats().total_files,
            old(self).spec_results().len() >= old(self).spec_files().len() ==> final(self).spec_results()
                == old(self).spec_results() && final(self).spec_stats() == old(self).spec_stats(),
            old(self).spec_results().len() < old(self).spec_files().len() ==> {
                let entered = final(self).spec_results().last();
                &&& final(self).spec_results() == old(self).spec_results().push(entered)
                &&& spec_is_outcome(
                    entered,
                    old(self).spec_files()[old(self).spec_results().len() as int]@,
                    decoded,
                    processing_time,
                )
                &&& final(self).spec_stats() == old(self).spec_stats().spec_record(
                    entered.success,
                    entered.results@.len(),
                    processing_time,
                )
                &&& final(self).spec_stats().processed_files == old(self).spec_stats().processed_files + 1
            },
    {
        proof {
            use_type_invariant(&*self);
        }
        if self.results.len() >= self.files.len() {
            return;
        }
        let at: usize = self.results.len();
        let result = outcome_of(self.files[at].as_str(), decoded, processing_time);
        let mut taken = BatchRun {
            files: Vec::new(),
            results: Vec::new(),
            stats: BatchStats {
                total_files: 0,
                processed_files: 0,
                successful_files: 0,
                failed_files: 0,
                total_qr_codes: 0,
                start_time: 0,
                total_processing_time: 0,
            },
        };
        std::mem::swap(self, &mut taken);
        let BatchRun { files, mut results, mut stats } = taken;
        let ghost before = results@;
        stats.record(&result);
        results.push(result);
        assert(results@ =~= before.push(result));
        *self = BatchRun { files, results, stats };
    }

    /// Ends the run: what became of each file that was processed, and the
    /// books.
    pub fn finish(self) -> (end: (Vec<BatchResult>, BatchStats))
        ensures
            end.0@ == self.spec_results(),
            end.1 == self.spec_stats(),
            end.1.total_files == self.spec_files().len(),
            end.1.processed_files == end.0@.len(),
    {
        proof {
            use_type_invariant(&self);
        }
        (self.results, self.stats)
    }
}

} // verus!

mod cancel;
mod events;
mod importer;
mod media;
mod planner;
mod scanner;
mod source;
mod timestamp;

pub use cancel::CancelFlag;
pub use events::Event;
pub use events::EventModel;
pub use events::ProgressEventPayload;
pub use importer::ImportPhase;
pub use importer::ImportStep;
pub use importer::Importer;
pub use importer::MAX_NAME_ATTEMPTS;
pub use media::eq_ignore_case;
pub use media::ext_of;
pub use media::extension_of;
pub use media::is_hidden;
pub use media::is_hidden_name;
pub use media::is_media_ext;
pub use media::is_media_extension;
pub use planner::candidate_name;
pub use planner::candidate_name_spec;
pub use planner::dec_digits;
pub use planner::join_path;
pub use planner::joined_path_spec;
pub use planner::lemma_candidate_names_distinct;
pub use planner::primary_name_spec;
pub use scanner::DirEntry;
pub use scanner::DirEntryModel;
pub use scanner::QueuedFile;
pub use scanner::QueuedFileModel;
pub use scanner::ScanStep;
pub use scanner::Scanner;
pub use scanner::entry_qualifies;
pub use scanner::file_qualifies;
pub use scanner::lemma_scan_keeps_exactly_the_qualifying_files;
pub use scanner::qualifying_files;
pub use source::DiskInfo;
pub use source::DiskModel;
pub use source::choose_default_source;
pub use timestamp::FsTime;
pub use timestamp::Timestamp;
pub use timestamp::days_in_month;
pub use timestamp::earlier_fs_time;
pub use timestamp::exif_datetime_of;
pub use timestamp::exif_part;
pub use timestamp::exif_timestamp;
pub use timestamp::exif_timestamp_spec;
pub use timestamp::fallback_instant;
pub use timestamp::MAX_EPOCH_SECS;
pub use timestamp::fallback_timestamp;
pub use timestamp::fs_time_in_range;
pub use timestamp::fs_time_le;
pub use timestamp::get_filename_template_example;
pub use timestamp::is_leap_year;
pub use timestamp::parse_datetime_of;
pub use timestamp::preview_spec;
pub use timestamp::resolve_timestamp;
pub use timestamp::strftime_of;
pub use timestamp::template_example;

//! The tables of the database: their names and their columns.

use vstd::prelude::*;

verus! {

/// The name of the table of folders.
pub const DB_FOLDERS_NAME: &'static str = "folders";

/// The columns of the table of folders.
pub const DB_FOLDERS_COLS: &'static str =
    "fld_id INTEGER PRIMARY KEY, rjcode TEXT NOT NULL UNIQUE, path TEXT, last_scan TEXT, active BOOLEAN";

/// The name of the table of dlsite scan.
pub const DB_DLSITE_SCAN_NAME: &'static str = "dlsite_scan";

/// The columns of the table of dlsite scan.
pub const DB_DLSITE_SCAN_COLS: &'static str =
    "fld_id INTEGER NOT NULL, last_scan TEXT, FOREIGN KEY (fld_id) REFERENCES folders(fld_id) ON DELETE CASCADE";

/// The name of the table of dlsite tag.
pub const DB_DLSITE_TAG_NAME: &'static str = "dlsite_tag";

/// The columns of the table of dlsite tag.
pub const DB_DLSITE_TAG_COLS: &'static str =
    "tag_id INTEGER PRIMARY KEY, tag_name TEXT NOT NULL UNIQUE";

/// The name of the table of circle.
pub const DB_CIRCLE_NAME: &'static str = "circles";

/// The columns of the table of circle.
pub const DB_CIRCLE_COLS: &'static str =
    "cir_id INTEGER PRIMARY KEY, rgcode TEXT NOT NULL UNIQUE, name_en TEXT, name_jp TEXT";

/// The name of the table of lkp work circle.
pub const DB_LKP_WORK_CIRCLE_NAME: &'static str = "lkp_work_circle";

/// The columns of the table of lkp work circle.
pub const DB_LKP_WORK_CIRCLE_COLS: &'static str =
    "fld_id INTEGER NOT NULL, cir_id INTEGER NOT NULL, PRIMARY KEY (fld_id, cir_id), FOREIGN KEY (fld_id) REFERENCES folders(fld_id) ON DELETE CASCADE, FOREIGN KEY (cir_id) REFERENCES circles(cir_id) ON DELETE CASCADE";

/// The name of the table of lkp work tag.
pub const DB_LKP_WORK_TAG_NAME: &'static str = "lkp_work_tag";

/// The columns of the table of lkp work tag.
pub const DB_LKP_WORK_TAG_COLS: &'static str =
    "fld_id INTEGER NOT NULL, tag_id INTEGER NOT NULL, PRIMARY KEY (fld_id, tag_id), FOREIGN KEY (fld_id) REFERENCES folders(fld_id) ON DELETE CASCADE, FOREIGN KEY (tag_id) REFERENCES dlsite_tag(tag_id) ON DELETE CASCADE";

/// The name of the table of release date.
pub const DB_RELEASE_DATE_NAME: &'static str = "release_date";

/// The columns of the table of release date.
pub const DB_RELEASE_DATE_COLS: &'static str =
    "fld_id INTEGER NOT NULL, release_date TEXT, FOREIGN KEY (fld_id) REFERENCES folders(fld_id) ON DELETE CASCADE";

/// The name of the table of rating.
pub const DB_RATING_NAME: &'static str = "rating";

/// The columns of the table of rating.
pub const DB_RATING_COLS: &'static str =
    "fld_id INTEGER NOT NULL, rating TEXT, FOREIGN KEY (fld_id) REFERENCES folders(fld_id) ON DELETE CASCADE";

/// The name of the table of stars.
pub const DB_STARS_NAME: &'static str = "stars";

/// The columns of the table of stars.
pub const DB_STARS_COLS: &'static str =
    "fld_id INTEGER NOT NULL, stars REAL, FOREIGN KEY (fld_id) REFERENCES folders(fld_id) ON DELETE CASCADE";

/// The name of the table of works.
pub const DB_WORKS_NAME: &'static str = "works";

/// The columns of the table of works.
pub const DB_WORKS_COLS: &'static str =
    "fld_id INTEGER NOT NULL, name TEXT, img_link TEXT, FOREIGN KEY (fld_id) REFERENCES folders(fld_id) ON DELETE CASCADE";

/// The name of the table of cvs.
pub const DB_CVS_NAME: &'static str = "cvs";

/// The columns of the table of cvs.
pub const DB_CVS_COLS: &'static str =
    "cv_id INTEGER PRIMARY KEY, name_jp TEXT NOT NULL UNIQUE, name_en TEXT";

/// The name of the table of lkp work cvs.
pub const DB_LKP_WORK_CVS_NAME: &'static str = "lkp_work_cvs";

/// The columns of the table of lkp work cvs.
pub const DB_LKP_WORK_CVS_COLS: &'static str =
    "fld_id INTEGER NOT NULL, cv_id INTEGER NOT NULL, PRIMARY KEY (fld_id, cv_id), FOREIGN KEY (fld_id) REFERENCES folders(fld_id) ON DELETE CASCADE, FOREIGN KEY (cv_id) REFERENCES cvs(cv_id) ON DELETE CASCADE";

/// The name of the table of dlsite errors.
pub const DB_DLSITE_ERRORS_NAME: &'static str = "dlsite_errors";

/// The columns of the table of dlsite errors.
pub const DB_DLSITE_ERRORS_COLS: &'static str =
    "fld_id INTEGER NOT NULL, error_type TEXT, error_timestamp TEXT, retry_count INTEGER, error_category TEXT, error_details TEXT, is_resolved BOOLEAN, resolved_date TEXT, FOREIGN KEY (fld_id) REFERENCES folders(fld_id) ON DELETE CASCADE";

/// The name of the table of dlsite covers link.
pub const DB_DLSITE_COVERS_LINK_NAME: &'static str = "dlsite_covers";

/// The columns of the table of dlsite covers link.
pub const DB_DLSITE_COVERS_LINK_COLS: &'static str =
    "fld_id INTEGER NOT NULL, link TEXT, FOREIGN KEY (fld_id) REFERENCES folders(fld_id) ON DELETE CASCADE";

/// The name of the table of file processing.
pub const DB_FILE_PROCESSING_NAME: &'static str = "file_processing";

/// The columns of the table of file processing.
pub const DB_FILE_PROCESSING_COLS: &'static str =
    "file_id integer primary key autoincrement, fld_id int not null, file_path text not null unique, file_name text not null, file_extension text, file_size_bytes integer, is_tagged boolean default 0, tag_date text, is_converted boolean default 0, convert_date text, conversion_error text, is_moved boolean default 0, move_date text, move_destination text, last_processed text, processing_status text default 'pending', foreign key (fld_id) references folders(fld_id)";

/// The name of the table of processing history.
pub const DB_PROCESSING_HISTORY_NAME: &'static str = "processing_history";

/// The columns of the table of processing history.
pub const DB_PROCESSING_HISTORY_COLS: &'static str =
    "event_id integer primary key autoincrement, fld_id int not null, file_path text, operation_type text not null, stage text not null, status text not null, error_message text, retry_count integer default 0, duration_ms integer, executed_at text default current_timestamp, completed_at text, metadata text, foreign key (fld_id) references folders(fld_id)";

/// The name of the table of metadata history.
pub const DB_METADATA_HISTORY_NAME: &'static str = "metadata_history";

/// The columns of the table of metadata history.
pub const DB_METADATA_HISTORY_COLS: &'static str =
    "history_id integer primary key autoincrement, fld_id int not null, metadata_type text not null, old_value text, new_value text, changed_at text default current_timestamp, change_reason text, source text, foreign key (fld_id) references folders(fld_id)";

/// The name of the table of custom tag mappings.
pub const DB_CUSTOM_TAG_MAPPINGS_NAME: &'static str = "custom_tag_mappings";

/// The columns of the table of custom tag mappings.
pub const DB_CUSTOM_TAG_MAPPINGS_COLS: &'static str =
    "dlsite_tag_id INTEGER PRIMARY KEY, custom_tag_name TEXT, is_ignored BOOLEAN DEFAULT 0, created_at TEXT DEFAULT (datetime('now')), modified_at TEXT DEFAULT (datetime('now')), FOREIGN KEY (dlsite_tag_id) REFERENCES dlsite_tag(tag_id) ON DELETE CASCADE";

/// The statement that creates an index on the table of file processing.
pub const DB_FILE_PROCESSING_INDEX_FLD_ID: &'static str =
    "CREATE INDEX IF NOT EXISTS idx_file_processing_fld_id ON file_processing(fld_id)";

/// The statement that creates an index on the table of file processing.
pub const DB_FILE_PROCESSING_INDEX_TAG_DATE: &'static str =
    "CREATE INDEX IF NOT EXISTS idx_file_processing_tag_date ON file_processing(tag_date)";

} // verus!

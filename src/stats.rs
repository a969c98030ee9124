use vstd::prelude::*;

verus! {

/// Running totals of one cleaning run.
#[derive(Clone, Copy, Debug, PartialEq, Eq)]
pub struct CleaningStats {
    pub files_deleted: u64,
    pub bytes_freed: u64,
    pub directories_cleaned: u64,
    /// Seconds since the Unix epoch at which the totals were started.
    pub timestamp: i64,
}

impl CleaningStats {
    /// Zero totals, stamped with `timestamp` (seconds since the Unix epoch).
    pub fn new(timestamp: i64) -> (r: Self)
        ensures
            r.files_deleted == 0,
            r.bytes_freed == 0,
            r.directories_cleaned == 0,
            r.timestamp == timestamp,
    {
        CleaningStats { files_deleted: 0, bytes_freed: 0, directories_cleaned: 0, timestamp }
    }

    /// Counts one more removed file of `size` bytes.
    pub fn add_file(&mut self, size: u64)
        requires
            old(self).files_deleted < u64::MAX,
            old(self).bytes_freed + size <= u64::MAX,
        ensures
            final(self).files_deleted == old(self).files_deleted + 1,
            final(self).bytes_freed == old(self).bytes_freed + size,
            final(self).directories_cleaned == old(self).directories_cleaned,
            final(self).timestamp == old(self).timestamp,
    {
        self.files_deleted = self.files_deleted + 1;
        self.bytes_freed = self.bytes_freed + size;
    }

    /// Counts one more cleaned directory.
    pub fn add_directory(&mut self)
        requires
            old(self).directories_cleaned < u64::MAX,
        ensures
            final(self).directories_cleaned == old(self).directories_cleaned + 1,
            final(self).files_deleted == old(self).files_deleted,
            final(self).bytes_freed == old(self).bytes_freed,
            final(self).timestamp == old(self).timestamp,
    {
        self.directories_cleaned = self.directories_cleaned + 1;
    }
}

} // verus!

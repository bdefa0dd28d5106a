use vstd::prelude::*;

verus! {

/// A snapshot of a run's progress.
#[derive(Debug, Clone, Copy, PartialEq, Eq, Structural)]
pub struct DownloadInfos {
    total_bytes_to_download: u64,
    total_bytes_downloaded: u64,
    total_files_to_download: u64,
    total_files_downloaded: u64,
}

impl DownloadInfos {
    pub closed spec fn spec_total_bytes_to_download(&self) -> u64 {
        self.total_bytes_to_download
    }

    pub closed spec fn spec_total_bytes_downloaded(&self) -> u64 {
        self.total_bytes_downloaded
    }

    pub closed spec fn spec_total_files_to_download(&self) -> u64 {
        self.total_files_to_download
    }

    pub closed spec fn spec_total_files_downloaded(&self) -> u64 {
        self.total_files_downloaded
    }

    pub fn get_total_bytes_to_download(&self) -> (r: u64)
        ensures
            r == self.spec_total_bytes_to_download(),
    {
        self.total_bytes_to_download
    }

    pub fn get_total_bytes_downloaded(&self) -> (r: u64)
        ensures
            r == self.spec_total_bytes_downloaded(),
    {
        self.total_bytes_downloaded
    }

    pub fn get_total_files_to_download(&self) -> (r: u64)
        ensures
            r == self.spec_total_files_to_download(),
    {
        self.total_files_to_download
    }

    pub fn get_total_files_downloaded(&self) -> (r: u64)
        ensures
            r == self.spec_total_files_downloaded(),
    {
        self.total_files_downloaded
    }
}

/// The counters of one run: bytes and files expected, and how many of each
/// have arrived. Counts never pass their totals.
#[derive(Debug)]
pub struct ProgressState {
    infos: DownloadInfos,
}

impl ProgressState {
    pub closed spec fn view(&self) -> DownloadInfos {
        self.infos
    }

    pub open spec fn wf(&self) -> bool {
        &&& self@.spec_total_bytes_downloaded() <= self@.spec_total_bytes_to_download()
        &&& self@.spec_total_files_downloaded() <= self@.spec_total_files_to_download()
    }

    /// Counters for a run that expects `bytes_to_download` bytes in
    /// `files_to_download` files, with nothing received yet.
    pub fn init(bytes_to_download: u64, files_to_download: u64) -> (r: ProgressState)
        ensures
            r.wf(),
            r@.spec_total_bytes_to_download() == bytes_to_download,
            r@.spec_total_files_to_download() == files_to_download,
            r@.spec_total_bytes_downloaded() == 0,
            r@.spec_total_files_downloaded() == 0,
    {
        ProgressState {
            infos: DownloadInfos {
                total_bytes_to_download: bytes_to_download,
                total_bytes_downloaded: 0,
                total_files_to_download: files_to_download,
                total_files_downloaded: 0,
            },
        }
    }

    /// The current counts.
    pub fn get_download_infos(&self) -> (r: DownloadInfos)
        ensures
            r == self@,
    {
        self.infos
    }

    /// Counts `bytes` more received.
    pub fn add_bytes_downloaded(&mut self, bytes: u64)
        requires
            old(self).wf(),
            old(self)@.spec_total_bytes_downloaded() + bytes <= old(self)@.spec_total_bytes_to_download(),
        ensures
            final(self).wf(),
            final(self)@.spec_total_bytes_to_download() == old(self)@.spec_total_bytes_to_download(),
            final(self)@.spec_total_bytes_downloaded() == old(self)@.spec_total_bytes_downloaded() + bytes,
            final(self)@.spec_total_files_to_download() == old(self)@.spec_total_files_to_download(),
            final(self)@.spec_total_files_downloaded() == old(self)@.spec_total_files_downloaded(),
    {
        self.infos.total_bytes_downloaded = self.infos.total_bytes_downloaded + bytes;
    }

    /// Takes back `bytes` counted for an attempt whose content was discarded.
    pub fn discard_bytes_downloaded(&mut self, bytes: u64)
        requires
            old(self).wf(),
            bytes <= old(self)@.spec_total_bytes_downloaded(),
        ensures
            final(self).wf(),
            final(self)@.spec_total_bytes_to_download() == old(self)@.spec_total_bytes_to_download(),
            final(self)@.spec_total_bytes_downloaded() == old(self)@.spec_total_bytes_downloaded() - bytes,
            final(self)@.spec_total_files_to_download() == old(self)@.spec_total_files_to_download(),
            final(self)@.spec_total_files_downloaded() == old(self)@.spec_total_files_downloaded(),
    {
        self.infos.total_bytes_downloaded = self.infos.total_bytes_downloaded - bytes;
    }

    /// Counts one more file completed.
    pub fn add_file_downloaded(&mut self)
        requires
            old(self).wf(),
            old(self)@.spec_total_files_downloaded() < old(self)@.spec_total_files_to_download(),
        ensures
            final(self).wf(),
            final(self)@.spec_total_bytes_to_download() == old(self)@.spec_total_bytes_to_download(),
            final(self)@.spec_total_bytes_downloaded() == old(self)@.spec_total_bytes_downloaded(),
            final(self)@.spec_total_files_to_download() == old(self)@.spec_total_files_to_download(),
            final(self)@.spec_total_files_downloaded() == old(self)@.spec_total_files_downloaded() + 1,
    {
        self.infos.total_files_downloaded = self.infos.total_files_downloaded + 1;
    }
}

} // verus!

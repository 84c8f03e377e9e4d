use vstd::prelude::*;

verus! {

/// Settings shared by every download that a client starts.
#[derive(Clone, Copy)]
pub struct Client {
    pub threads: usize,
    pub retries: usize,
    pub progress: bool,
}

/// A pending download of the path manifest of one crawl subset.
pub struct PathsDownload {
    pub client: Client,
    pub snapshot: String,
    pub data_type: String,
}

/// A pending download of the files that a path manifest lists.
pub struct DataDownload {
    pub client: Client,
    pub path_file: String,
    pub files_only: bool,
    pub numbered: bool,
    pub strict: bool,
}

impl Client {
    /// A client with the given concurrency, retry budget and progress display.
    pub fn new(threads: usize, retries: usize, progress: bool) -> (c: Client)
        ensures
            c.threads == threads,
            c.retries == retries,
            c.progress == progress,
    {
        Client { threads, retries, progress }
    }

    /// Starts a download of the path manifest of `data_type` in crawl `snapshot`.
    pub fn paths(&self, snapshot: &str, data_type: &str) -> (d: PathsDownload)
        ensures
            d.client == *self,
            d.snapshot@ == snapshot@,
            d.data_type@ == data_type@,
    {
        PathsDownload {
            client: *self,
            snapshot: snapshot.to_owned(),
            data_type: data_type.to_owned(),
        }
    }

    /// Starts a download of the files listed in the manifest `path_file`,
    /// keeping the folder structure, unnumbered and tolerant of missing files.
    pub fn download(&self, path_file: &str) -> (d: DataDownload)
        ensures
            d.client == *self,
            d.path_file@ == path_file@,
            !d.files_only,
            !d.numbered,
            !d.strict,
    {
        DataDownload {
            client: *self,
            path_file: path_file.to_owned(),
            files_only: false,
            numbered: false,
            strict: false,
        }
    }
}

impl DataDownload {
    /// Downloads the files without their folder structure; nothing else changes.
    pub fn files_only(self) -> (d: DataDownload)
        ensures
            d == (DataDownload { files_only: true, ..self }),
    {
        DataDownload { files_only: true, ..self }
    }

    /// Numbers the output files (for the Ungoliant pipeline); nothing else changes.
    pub fn numbered(self) -> (d: DataDownload)
        ensures
            d == (DataDownload { numbered: true, ..self }),
    {
        DataDownload { numbered: true, ..self }
    }

    /// Abandons all downloads on an unrecoverable error (401, 403, 404);
    /// nothing else changes.
    pub fn strict(self) -> (d: DataDownload)
        ensures
            d == (DataDownload { strict: true, ..self }),
    {
        DataDownload { strict: true, ..self }
    }
}

} // verus!

//! Configuration records. Each is a plain value: the caller fills it in,
//! hands it to an operation, and the engine is configured from it when the
//! operation's call is carried out.

use vstd::prelude::*;

verus! {

/// A registered key ordering, known by its name. The database that is
/// opened with it keeps it for as long as the database lives.
#[derive(Debug)]
pub struct Comparator {
    pub name: String,
}

/// A registered prefix extractor, known by its name.
#[derive(Debug)]
pub struct SliceTransform {
    pub name: String,
}

/// Settings of block-based table storage.
#[derive(Clone, Copy, Debug)]
pub struct BlockBasedOptions {
    pub block_size: usize,
    pub cache_index_and_filter_blocks: bool,
}

impl BlockBasedOptions {
    /// The engine's defaults: blocks of 4096 bytes, index and filter
    /// blocks outside the block cache.
    pub fn new() -> (o: BlockBasedOptions)
        ensures
            o == (BlockBasedOptions { block_size: 4096, cache_index_and_filter_blocks: false }),
    {
        BlockBasedOptions { block_size: 4096, cache_index_and_filter_blocks: false }
    }

    /// The size of a block, in bytes.
    pub fn set_block_size(&mut self, size: usize)
        ensures
            *final(self) == (BlockBasedOptions { block_size: size, ..*old(self) }),
    {
        self.block_size = size;
    }

    /// Whether index and filter blocks go to the block cache.
    pub fn set_cache_index_and_filter_blocks(&mut self, v: bool)
        ensures
            *final(self) == (BlockBasedOptions { cache_index_and_filter_blocks: v, ..*old(self) }),
    {
        self.cache_index_and_filter_blocks = v;
    }
}

/// Database-wide settings, consumed when the database is opened.
#[derive(Debug)]
pub struct DbOptions {
    pub create_if_missing: bool,
    pub max_open_files: i32,
    pub merge_operator: Option<String>,
    pub comparator: Option<Comparator>,
    pub prefix_extractor: Option<SliceTransform>,
    pub block_based: Option<BlockBasedOptions>,
}

impl DbOptions {
    /// The engine's defaults: an absent store is not created, no limit on
    /// open files, nothing registered.
    pub fn new() -> (o: DbOptions)
        ensures
            !o.create_if_missing,
            o.max_open_files == -1,
            o.merge_operator.is_none(),
            o.comparator.is_none(),
            o.prefix_extractor.is_none(),
            o.block_based.is_none(),
    {
        DbOptions {
            create_if_missing: false,
            max_open_files: -1,
            merge_operator: None,
            comparator: None,
            prefix_extractor: None,
            block_based: None,
        }
    }

    /// Stores tables in blocks, under these settings.
    pub fn set_block_based_table_factory(&mut self, factory: &BlockBasedOptions)
        ensures
            *final(self) == (DbOptions { block_based: Some(*factory), ..*old(self) }),
    {
        self.block_based = Some(*factory);
    }

    /// Whether an absent store is created when the database is opened.
    pub fn create_if_missing(&mut self, create: bool)
        ensures
            *final(self) == (DbOptions { create_if_missing: create, ..*old(self) }),
    {
        self.create_if_missing = create;
    }

    /// The budget of file handles; -1 for no limit.
    pub fn set_max_open_files(&mut self, n: i32)
        ensures
            *final(self) == (DbOptions { max_open_files: n, ..*old(self) }),
    {
        self.max_open_files = n;
    }

    /// Registers a merge operator under a name.
    pub fn set_merge_operator(&mut self, name: String)
        ensures
            *final(self) == (DbOptions { merge_operator: Some(name), ..*old(self) }),
    {
        self.merge_operator = Some(name);
    }

    /// Registers a key ordering.
    pub fn set_comparator(&mut self, comparator: Comparator)
        ensures
            *final(self) == (DbOptions { comparator: Some(comparator), ..*old(self) }),
    {
        self.comparator = Some(comparator);
    }

    /// Registers a prefix extractor.
    pub fn set_prefix_extractor(&mut self, extractor: SliceTransform)
        ensures
            *final(self) == (DbOptions { prefix_extractor: Some(extractor), ..*old(self) }),
    {
        self.prefix_extractor = Some(extractor);
    }
}

/// Settings of one read. `snapshot` pins the read to a snapshot, named by
/// its identifier.
#[derive(Clone, Copy, Debug)]
pub struct ReadOptions {
    pub snapshot: Option<u64>,
}

impl ReadOptions {
    /// A read of the latest state.
    pub fn new() -> (o: ReadOptions)
        ensures
            o == (ReadOptions { snapshot: None }),
    {
        ReadOptions { snapshot: None }
    }

    /// The options that were given, or the defaults where none were.
    pub fn input_or_default(input: Option<&ReadOptions>) -> (o: ReadOptions)
        ensures
            o == match input {
                Some(given) => *given,
                None => (ReadOptions { snapshot: None }),
            },
    {
        match input {
            Some(given) => *given,
            None => ReadOptions::new(),
        }
    }
}

/// Settings of one write.
#[derive(Clone, Copy, Debug)]
pub struct WriteOptions {
    pub sync: bool,
    pub disable_wal: bool,
}

impl WriteOptions {
    /// No sync on write, write-ahead log in use.
    pub fn new() -> (o: WriteOptions)
        ensures
            o == (WriteOptions { sync: false, disable_wal: false }),
    {
        WriteOptions { sync: false, disable_wal: false }
    }

    /// Whether a write is synced to disk before it returns.
    pub fn set_sync(&mut self, sync: bool)
        ensures
            *final(self) == (WriteOptions { sync, ..*old(self) }),
    {
        self.sync = sync;
    }

    /// Whether a write skips the write-ahead log.
    pub fn disable_wal(&mut self, disable: bool)
        ensures
            *final(self) == (WriteOptions { disable_wal: disable, ..*old(self) }),
    {
        self.disable_wal = disable;
    }

    /// The options that were given, or the defaults where none were.
    pub fn input_or_default(input: Option<&WriteOptions>) -> (o: WriteOptions)
        ensures
            o == match input {
                Some(given) => *given,
                None => (WriteOptions { sync: false, disable_wal: false }),
            },
    {
        match input {
            Some(given) => *given,
            None => WriteOptions::new(),
        }
    }
}

/// Settings of a transactional database. Times are in milliseconds; a
/// negative lock count or timeout means no limit.
#[derive(Clone, Copy, Debug)]
pub struct TransactionDBOptions {
    pub max_num_locks: i64,
    pub num_stripes: usize,
    pub transaction_lock_timeout: i64,
    pub default_lock_timeout: i64,
}

impl TransactionDBOptions {
    /// The engine's defaults: no limit on locks, 16 stripes, and one
    /// second for either lock timeout.
    pub fn new() -> (o: TransactionDBOptions)
        ensures
            o == (TransactionDBOptions {
                max_num_locks: -1i64,
                num_stripes: 16,
                transaction_lock_timeout: 1000,
                default_lock_timeout: 1000,
            }),
    {
        TransactionDBOptions {
            max_num_locks: -1,
            num_stripes: 16,
            transaction_lock_timeout: 1000,
            default_lock_timeout: 1000,
        }
    }

    /// The settings as the engine is to get them. A write outside any
    /// transaction must not wait without limit, so a negative timeout for
    /// such writes goes to the engine as 0: fail at once.
    pub fn for_engine(&self) -> (o: TransactionDBOptions)
        ensures
            o == (TransactionDBOptions {
                default_lock_timeout: if self.default_lock_timeout < 0 {
                    0i64
                } else {
                    self.default_lock_timeout
                },
                ..*self
            }),
    {
        let mut o: TransactionDBOptions = *self;
        if o.default_lock_timeout < 0 {
            o.default_lock_timeout = 0;
        }
        o
    }

    /// How long a write outside any transaction waits for a locked key.
    pub fn set_default_lock_timeout(&mut self, default_lock_timeout: i64)
        ensures
            *final(self) == (TransactionDBOptions { default_lock_timeout, ..*old(self) }),
    {
        self.default_lock_timeout = default_lock_timeout;
    }

    /// The largest number of keys that can be locked at once.
    pub fn set_max_num_locks(&mut self, max_num_locks: i64)
        ensures
            *final(self) == (TransactionDBOptions { max_num_locks, ..*old(self) }),
    {
        self.max_num_locks = max_num_locks;
    }

    /// The number of stripes of the lock table.
    pub fn set_num_stripes(&mut self, num_stripes: usize)
        ensures
            *final(self) == (TransactionDBOptions { num_stripes, ..*old(self) }),
    {
        self.num_stripes = num_stripes;
    }

    /// How long a transaction waits for a locked key unless its own
    /// options say otherwise.
    pub fn set_transaction_lock_timeout(&mut self, txn_lock_timeout: i64)
        ensures
            *final(self) == (TransactionDBOptions {
                transaction_lock_timeout: txn_lock_timeout,
                ..*old(self)
            }),
    {
        self.transaction_lock_timeout = txn_lock_timeout;
    }
}

/// Settings of one transaction.
#[derive(Clone, Copy, Debug)]
pub struct TransactionOptions {
    pub set_snapshot: bool,
    pub deadlock_detect: bool,
    pub lock_timeout: i64,
    pub expiration: i64,
    pub deadlock_detect_depth: i64,
    pub max_write_batch_size: usize,
}

impl TransactionOptions {
    /// The engine's defaults: no snapshot at start, no deadlock detection,
    /// the database's lock timeout, no expiration, a detection depth of 50
    /// and no limit on the write batch.
    pub fn new() -> (o: TransactionOptions)
        ensures
            o == (TransactionOptions {
                set_snapshot: false,
                deadlock_detect: false,
                lock_timeout: -1i64,
                expiration: -1i64,
                deadlock_detect_depth: 50,
                max_write_batch_size: 0,
            }),
    {
        TransactionOptions {
            set_snapshot: false,
            deadlock_detect: false,
            lock_timeout: -1,
            expiration: -1,
            deadlock_detect_depth: 50,
            max_write_batch_size: 0,
        }
    }

    /// Whether the engine looks for lock cycles.
    pub fn set_deadlock_detect(&mut self, deadlock_detect: bool)
        ensures
            *final(self) == (TransactionOptions { deadlock_detect, ..*old(self) }),
    {
        self.deadlock_detect = deadlock_detect;
    }

    /// How far the engine follows a chain of waiting transactions.
    pub fn set_deadlock_detect_depth(&mut self, depth: i64)
        ensures
            *final(self) == (TransactionOptions { deadlock_detect_depth: depth, ..*old(self) }),
    {
        self.deadlock_detect_depth = depth;
    }

    /// After how many milliseconds the transaction expires; negative for never.
    pub fn set_expiration(&mut self, expiration: i64)
        ensures
            *final(self) == (TransactionOptions { expiration, ..*old(self) }),
    {
        self.expiration = expiration;
    }

    /// How long the transaction waits for a locked key; negative for the database's timeout.
    pub fn set_lock_timeout(&mut self, lock_timeout: i64)
        ensures
            *final(self) == (TransactionOptions { lock_timeout, ..*old(self) }),
    {
        self.lock_timeout = lock_timeout;
    }

    /// The largest write batch in bytes; 0 for no limit.
    pub fn set_max_write_batch_size(&mut self, size: usize)
        ensures
            *final(self) == (TransactionOptions { max_write_batch_size: size, ..*old(self) }),
    {
        self.max_write_batch_size = size;
    }

    /// Whether the transaction captures a snapshot when it begins.
    pub fn set_snapshot(&mut self, set_snapshot: bool)
        ensures
            *final(self) == (TransactionOptions { set_snapshot, ..*old(self) }),
    {
        self.set_snapshot = set_snapshot;
    }
}

impl Default for DbOptions {
    /// The engine's defaults, as `new` gives them.
    fn default() -> (o: DbOptions)
        ensures
            !o.create_if_missing,
            o.max_open_files == -1,
            o.merge_operator.is_none(),
            o.comparator.is_none(),
            o.prefix_extractor.is_none(),
            o.block_based.is_none(),
    {
        DbOptions::new()
    }
}

impl Default for ReadOptions {
    /// The engine's defaults, as `new` gives them.
    fn default() -> (o: ReadOptions)
        ensures
            o == (ReadOptions { snapshot: None }),
    {
        ReadOptions::new()
    }
}

impl Default for WriteOptions {
    /// The engine's defaults, as `new` gives them.
    fn default() -> (o: WriteOptions)
        ensures
            o == (WriteOptions { sync: false, disable_wal: false }),
    {
        WriteOptions::new()
    }
}

impl Default for TransactionDBOptions {
    /// The engine's defaults, as `new` gives them.
    fn default() -> (o: TransactionDBOptions)
        ensures
            o == (TransactionDBOptions {
                max_num_locks: -1i64,
                num_stripes: 16,
                transaction_lock_timeout: 1000,
                default_lock_timeout: 1000,
            }),
    {
        TransactionDBOptions::new()
    }
}

impl Default for TransactionOptions {
    /// The engine's defaults, as `new` gives them.
    fn default() -> (o: TransactionOptions)
        ensures
            o == (TransactionOptions {
                set_snapshot: false,
                deadlock_detect: false,
                lock_timeout: -1i64,
                expiration: -1i64,
                deadlock_detect_depth: 50,
                max_write_batch_size: 0,
            }),
    {
        TransactionOptions::new()
    }
}

} // verus!

//! The shared-memory allocator's rules: what a region is asked for, where
//! its backing file lies, and with which permissions it is opened and
//! mapped. Opening and mapping are the caller's; this module says how.

use crate::types::{CapturerError, ErrorView};
use vstd::prelude::*;
use vstd::string::*;

verus! {

/// What a shared-memory region is made from.
#[derive(Debug, Clone, PartialEq, Eq)]
pub struct ShmFactory {
    pub name: String,
    pub size: usize,
    pub scope: Option<String>,
    pub read: bool,
    pub write: bool,
    pub create: bool,
    pub rw: bool,
    pub execute: bool,
    pub check_exists: bool,
}

/// Collects the fields of a [`ShmFactory`] one by one.
#[derive(Debug, Clone, PartialEq, Eq)]
pub struct ShmFactoryBuilder {
    pub name: Option<String>,
    pub size: Option<usize>,
    pub scope: Option<Option<String>>,
    pub read: Option<bool>,
    pub write: Option<bool>,
    pub create: Option<bool>,
    pub rw: Option<bool>,
    pub execute: Option<bool>,
    pub check_exists: Option<bool>,
}

/// Why a builder could not make its factory.
#[derive(Debug, Clone, PartialEq, Eq)]
pub enum ShmFactoryBuilderError {
    /// A field without a default was never set.
    UninitializedField(String),
    /// The builder's own check refused, with this message.
    ValidationError(String),
}

/// The mathematical value of a [`ShmFactory`].
pub struct FactoryView {
    pub name: Seq<char>,
    pub size: usize,
    pub scope: Option<Seq<char>>,
    pub read: bool,
    pub write: bool,
    pub create: bool,
    pub rw: bool,
    pub execute: bool,
    pub check_exists: bool,
}

impl View for ShmFactory {
    type V = FactoryView;

    open spec fn view(&self) -> FactoryView {
        FactoryView {
            name: self.name@,
            size: self.size,
            scope: match self.scope {
                Some(scope) => Some(scope@),
                None => None,
            },
            read: self.read,
            write: self.write,
            create: self.create,
            rw: self.rw,
            execute: self.execute,
            check_exists: self.check_exists,
        }
    }
}

/// The value that a field of a builder stands for: the one that was set, or
/// the default.
pub open spec fn or_default(field: Option<bool>, default: bool) -> bool {
    match field {
        Some(value) => value,
        None => default,
    }
}

impl ShmFactoryBuilder {
    /// The message with which the builder's check refuses, if it does: the
    /// name is asked for first, then the size.
    pub open spec fn refusal(self) -> Option<Seq<char>> {
        if self.name is None {
            Some("'name' is a required field"@)
        } else if self.size is None {
            Some("'size' is a required field"@)
        } else {
            None
        }
    }

    /// The factory that the builder stands for. Without a word to the
    /// contrary a region is created if absent and opened for reading and
    /// writing.
    pub open spec fn built(self) -> FactoryView
        recommends
            self.refusal() is None,
    {
        FactoryView {
            name: self.name->Some_0@,
            size: self.size->Some_0,
            scope: match self.scope {
                Some(Some(scope)) => Some(scope@),
                _ => None,
            },
            read: or_default(self.read, false),
            write: or_default(self.write, false),
            create: or_default(self.create, true),
            rw: or_default(self.rw, true),
            execute: or_default(self.execute, false),
            check_exists: or_default(self.check_exists, false),
        }
    }

    pub fn name(self, value: &str) -> (builder: ShmFactoryBuilder)
        ensures
            builder.name is Some,
            builder.name->Some_0@ == value@,
            builder == (ShmFactoryBuilder { name: builder.name, ..self }),
    {
        ShmFactoryBuilder { name: Some(String::from_str(value)), ..self }
    }

    pub fn size(self, value: usize) -> (builder: ShmFactoryBuilder)
        ensures
            builder == (ShmFactoryBuilder { size: Some(value), ..self }),
    {
        ShmFactoryBuilder { size: Some(value), ..self }
    }

    pub fn scope(self, value: Option<String>) -> (builder: ShmFactoryBuilder)
        ensures
            builder == (ShmFactoryBuilder { scope: Some(value), ..self }),
    {
        ShmFactoryBuilder { scope: Some(value), ..self }
    }

    pub fn read(self, value: bool) -> (builder: ShmFactoryBuilder)
        ensures
            builder == (ShmFactoryBuilder { read: Some(value), ..self }),
    {
        ShmFactoryBuilder { read: Some(value), ..self }
    }

    pub fn write(self, value: bool) -> (builder: ShmFactoryBuilder)
        ensures
            builder == (ShmFactoryBuilder { write: Some(value), ..self }),
    {
        ShmFactoryBuilder { write: Some(value), ..self }
    }

    pub fn create(self, value: bool) -> (builder: ShmFactoryBuilder)
        ensures
            builder == (ShmFactoryBuilder { create: Some(value), ..self }),
    {
        ShmFactoryBuilder { create: Some(value), ..self }
    }

    pub fn rw(self, value: bool) -> (builder: ShmFactoryBuilder)
        ensures
            builder == (ShmFactoryBuilder { rw: Some(value), ..self }),
    {
        ShmFactoryBuilder { rw: Some(value), ..self }
    }

    pub fn execute(self, value: bool) -> (builder: ShmFactoryBuilder)
        ensures
            builder == (ShmFactoryBuilder { execute: Some(value), ..self }),
    {
        ShmFactoryBuilder { execute: Some(value), ..self }
    }

    pub fn check_exists(self, value: bool) -> (builder: ShmFactoryBuilder)
        ensures
            builder == (ShmFactoryBuilder { check_exists: Some(value), ..self }),
    {
        ShmFactoryBuilder { check_exists: Some(value), ..self }
    }

    /// Checks that the fields without a default were set.
    pub fn validate(&self) -> (r: Result<(), String>)
        ensures
            match self.refusal() {
                Some(message) => r is Err && r->Err_0@ == message,
                None => r is Ok,
            },
    {
        if self.name.is_none() {
            Err(String::from_str("'name' is a required field"))
        } else if self.size.is_none() {
            Err(String::from_str("'size' is a required field"))
        } else {
            Ok(())
        }
    }

    /// Makes the factory, with the default for each field that was not set.
    /// Fails with the message of the builder's check where name or size is
    /// absent.
    pub fn build(self) -> (r: Result<ShmFactory, ShmFactoryBuilderError>)
        ensures
            match self.refusal() {
                Some(message) => r is Err && r->Err_0 is ValidationError
                    && r->Err_0->ValidationError_0@ == message,
                None => r is Ok && r->Ok_0@ == self.built(),
            },
    {
        if let Err(message) = self.validate() {
            return Err(ShmFactoryBuilderError::ValidationError(message));
        }
        let ShmFactoryBuilder { name, size, scope, read, write, create, rw, execute, check_exists } =
            self;
        let Some(name) = name else {
            return Err(ShmFactoryBuilderError::UninitializedField(String::from_str("name")));
        };
        let Some(size) = size else {
            return Err(ShmFactoryBuilderError::UninitializedField(String::from_str("size")));
        };
        Ok(
            ShmFactory {
                name,
                size,
                scope: match scope {
                    Some(scope) => scope,
                    None => None,
                },
                read: set_or(read, false),
                write: set_or(write, false),
                create: set_or(create, true),
                rw: set_or(rw, true),
                execute: set_or(execute, false),
                check_exists: set_or(check_exists, false),
            },
        )
    }
}

/// The value of a field that may not have been set.
fn set_or(field: Option<bool>, default: bool) -> (value: bool)
    ensures
        value == or_default(field, default),
{
    match field {
        Some(value) => value,
        None => default,
    }
}

impl Default for ShmFactoryBuilder {
    fn default() -> (builder: ShmFactoryBuilder)
        ensures
            builder == (ShmFactoryBuilder {
                name: None,
                size: None,
                scope: None,
                read: None,
                write: None,
                create: None,
                rw: None,
                execute: None,
                check_exists: None,
            }),
    {
        ShmFactoryBuilder {
            name: None,
            size: None,
            scope: None,
            read: None,
            write: None,
            create: None,
            rw: None,
            execute: None,
            check_exists: None,
        }
    }
}

/// How a region's backing file is opened.
#[derive(Debug, Clone, Copy, PartialEq, Eq, Structural)]
pub enum OpenAccess {
    ReadOnly,
    WriteOnly,
    ReadWrite,
}

/// The permission bit of the owner's right to read.
pub const OWNER_READ: u32 = 0o400;

/// The permission bit of the owner's right to write.
pub const OWNER_WRITE: u32 = 0o200;

/// The permission bit of the owner's right to execute.
pub const OWNER_EXEC: u32 = 0o100;

/// The largest size that a backing file can be given.
pub const SIZE_MAX: u64 = 0x7fff_ffff_ffff_ffff;

/// Everything the caller needs to open, size and map a region.
#[derive(Debug, Clone, PartialEq, Eq)]
pub struct ShmPlan {
    /// Where the backing file lies.
    pub path: String,
    /// The size of the region in bytes.
    pub size: usize,
    /// How the file is opened.
    pub access: OpenAccess,
    /// Whether the file is created if absent.
    pub create: bool,
    /// Whether opening fails where the file exists.
    pub exclusive: bool,
    /// The permissions of a file that is created.
    pub mode: u32,
    /// Whether the mapping can be read.
    pub map_read: bool,
    /// Whether the mapping can be written.
    pub map_write: bool,
    /// Whether the mapping can be executed.
    pub map_exec: bool,
}

/// The mathematical value of a [`ShmPlan`].
pub struct PlanView {
    pub path: Seq<char>,
    pub size: usize,
    pub access: OpenAccess,
    pub create: bool,
    pub exclusive: bool,
    pub mode: u32,
    pub map_read: bool,
    pub map_write: bool,
    pub map_exec: bool,
}

impl View for ShmPlan {
    type V = PlanView;

    open spec fn view(&self) -> PlanView {
        PlanView {
            path: self.path@,
            size: self.size,
            access: self.access,
            create: self.create,
            exclusive: self.exclusive,
            mode: self.mode,
            map_read: self.map_read,
            map_write: self.map_write,
            map_exec: self.map_exec,
        }
    }
}

/// A path with one more component below it. The component stays below the
/// path whatever it begins with.
pub open spec fn joined(base: Seq<char>, part: Seq<char>) -> Seq<char> {
    if base.len() > 0 && base.last() == '/' {
        base + part
    } else {
        base.push('/') + part
    }
}

impl FactoryView {
    /// Whether the region is read.
    pub open spec fn readable(self) -> bool {
        self.rw || self.read
    }

    /// Whether the region is written.
    pub open spec fn writable(self) -> bool {
        self.rw || self.write
    }

    /// Where the backing file lies: below the runtime directory, in the
    /// scope if there is one.
    pub open spec fn path(self, runtime_dir: Seq<char>) -> Seq<char> {
        match self.scope {
            Some(scope) => joined(joined(runtime_dir, scope), self.name),
            None => joined(runtime_dir, self.name),
        }
    }

    /// How the backing file is opened: with no more than is needed.
    pub open spec fn access(self) -> OpenAccess {
        if self.readable() && self.writable() {
            OpenAccess::ReadWrite
        } else if self.writable() {
            OpenAccess::WriteOnly
        } else {
            OpenAccess::ReadOnly
        }
    }

    /// The permissions of a backing file that is created: the owner's, and
    /// no more than is needed.
    pub open spec fn mode(self) -> u32 {
        ((if self.readable() {
            OWNER_READ
        } else {
            0u32
        }) + (if self.writable() {
            OWNER_WRITE
        } else {
            0u32
        }) + (if self.execute {
            OWNER_EXEC
        } else {
            0u32
        })) as u32
    }

    /// Whether a region can be planned in a runtime directory: the path can
    /// be handed to the system, and the size to the file.
    pub open spec fn plannable(self, runtime_dir: Seq<char>) -> bool {
        !self.path(runtime_dir).contains('\0') && self.size <= SIZE_MAX
    }

    /// The plan for the region.
    pub open spec fn plan(self, runtime_dir: Seq<char>) -> PlanView {
        PlanView {
            path: self.path(runtime_dir),
            size: self.size,
            access: self.access(),
            create: self.create,
            exclusive: self.check_exists,
            mode: self.mode(),
            map_read: self.readable(),
            map_write: self.writable(),
            map_exec: self.execute,
        }
    }
}

/// Adds a component below a path.
fn join(path: &mut String, part: &str)
    ensures
        final(path)@ == joined(old(path)@, part@),
{
    let len = path.as_str().unicode_len();
    if len == 0 || path.as_str().get_char(len - 1) != '/' {
        path.append("/");
        proof {
            reveal_strlit("/");
            assert("/"@ =~= seq!['/']);
            assert(path@ =~= old(path)@.push('/'));
        }
    }
    path.append(part);
}

/// Whether a text holds the character that ends a path for the system.
fn has_nul(text: &str) -> (found: bool)
    ensures
        found == text@.contains('\0'),
{
    let len = text.unicode_len();
    let mut i: usize = 0;
    while i < len
        invariant
            i <= len,
            len == text@.len(),
            forall|j: int| 0 <= j < i ==> text@[j] != '\0',
        decreases len - i,
    {
        if text.get_char(i) == '\0' {
            return true;
        }
        i += 1;
    }
    false
}

impl ShmFactory {
    /// Plans the region in the given runtime directory. Fails where there
    /// is no runtime directory, where the path holds a character that the
    /// system cannot take, and where the size is more than a file can have.
    pub fn plan(&self, runtime_dir: Option<&str>) -> (r: Result<ShmPlan, CapturerError>)
        ensures
            match runtime_dir {
                Some(dir) if self@.plannable(dir@) => r is Ok && r->Ok_0@ == self@.plan(dir@),
                _ => r is Err && r->Err_0@ == ErrorView::AllocationFailed,
            },
    {
        let Some(dir) = runtime_dir else {
            return Err(CapturerError::AllocationFailed);
        };
        let mut path = String::from_str(dir);
        match &self.scope {
            Some(scope) => {
                join(&mut path, scope.as_str());
            },
            None => {},
        }
        join(&mut path, self.name.as_str());
        if has_nul(path.as_str()) || self.size as u64 > SIZE_MAX {
            return Err(CapturerError::AllocationFailed);
        }
        let readable = self.rw || self.read;
        let writable = self.rw || self.write;
        let access = if readable && writable {
            OpenAccess::ReadWrite
        } else if writable {
            OpenAccess::WriteOnly
        } else {
            OpenAccess::ReadOnly
        };
        let mut mode: u32 = 0;
        if readable {
            mode = mode + OWNER_READ;
        }
        if writable {
            mode = mode + OWNER_WRITE;
        }
        if self.execute {
            mode = mode + OWNER_EXEC;
        }
        Ok(
            ShmPlan {
                path,
                size: self.size,
                access,
                create: self.create,
                exclusive: self.check_exists,
                mode,
                map_read: readable,
                map_write: writable,
                map_exec: self.execute,
            },
        )
    }
}

/// A region's backing file lies below the runtime directory, whatever its
/// scope and name are.
pub proof fn lemma_path_is_rooted(factory: FactoryView, runtime_dir: Seq<char>)
    ensures
        runtime_dir.is_prefix_of(factory.path(runtime_dir)),
        factory.name.is_suffix_of(factory.path(runtime_dir)),
{
    let path = factory.path(runtime_dir);
    assert(path.subrange(0, runtime_dir.len() as int) =~= runtime_dir);
    assert(path.subrange(path.len() - factory.name.len(), path.len() as int) =~= factory.name);
}

/// A factory with every default is opened for reading and writing, created
/// if absent, with the owner's rights to read and to write and no other.
pub proof fn lemma_default_access(builder: ShmFactoryBuilder)
    requires
        builder.refusal() is None,
        builder.read is None,
        builder.write is None,
        builder.create is None,
        builder.rw is None,
        builder.execute is None,
        builder.check_exists is None,
    ensures
        builder.built().access() == OpenAccess::ReadWrite,
        builder.built().create,
        !builder.built().check_exists,
        builder.built().mode() == 0o600,
{
}

/// A file is opened for no more than its region is used for, and a created
/// file gives its owner exactly the rights that the region is used with.
pub proof fn lemma_minimal_permissions(factory: FactoryView)
    ensures
        factory.access() == OpenAccess::ReadWrite <==> factory.readable() && factory.writable(),
        factory.access() == OpenAccess::WriteOnly <==> factory.writable() && !factory.readable(),
        factory.access() == OpenAccess::ReadOnly <==> !factory.writable(),
        factory.mode() == (if factory.readable() {
            0o400int
        } else {
            0
        }) + (if factory.writable() {
            0o200int
        } else {
            0
        }) + (if factory.execute {
            0o100int
        } else {
            0
        }),
{
}

} // verus!

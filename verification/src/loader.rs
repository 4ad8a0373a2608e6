//! The per-application stacks and the placement of application images.

use vstd::prelude::*;
use crate::config::{APP_BASE_ADDRESS, APP_SIZE_LIMIT, KERNEL_STACK_SIZE, MAX_APP_NUM, USER_STACK_SIZE};
use crate::trap::context::{TrapContext, TRAP_CONTEXT_SIZE};

verus! {

/// Alignment in bytes of every stack.
pub const STACK_ALIGN: usize = 4096;

/// The kernel stack of one application: `KERNEL_STACK_SIZE` bytes of memory
/// from `base` on, and the trap context that lies at its top, if one was
/// pushed.
#[derive(Clone, Copy)]
pub struct KernelStack {
    base: usize,
    trap_cx: Option<TrapContext>,
}

/// The user stack of one application: `USER_STACK_SIZE` bytes of memory from
/// `base` on.
#[derive(Clone, Copy)]
pub struct UserStack {
    base: usize,
}

impl KernelStack {
    /// Address of the stack's first byte.
    pub closed spec fn base_addr(&self) -> usize {
        self.base
    }

    /// The trap context at the top of the stack.
    pub closed spec fn frame(&self) -> Option<TrapContext> {
        self.trap_cx
    }

    /// The stack is aligned and ends within the address space.
    pub open spec fn wf(&self) -> bool {
        &&& self.base_addr() % STACK_ALIGN == 0
        &&& self.base_addr() + KERNEL_STACK_SIZE <= usize::MAX
    }

    /// Address of the stack's first byte.
    pub fn base(&self) -> (addr: usize)
        ensures
            addr == self.base_addr(),
    {
        self.base
    }

    /// The trap context at the top of the stack, if one was pushed.
    pub fn trap_context(&self) -> (cx: Option<TrapContext>)
        ensures
            cx == self.frame(),
    {
        self.trap_cx
    }

    /// The initial stack pointer: the address just past the stack, which
    /// grows downward.
    pub fn get_sp(&self) -> (sp: usize)
        requires
            self.wf(),
        ensures
            sp == self.base_addr() + KERNEL_STACK_SIZE,
    {
        self.base + KERNEL_STACK_SIZE
    }

    /// Places `trap_cx` at the top of the stack and returns its address, the
    /// new stack pointer.
    pub fn push_context(&mut self, trap_cx: TrapContext) -> (ptr: usize)
        requires
            old(self).wf(),
        ensures
            ptr == old(self).base_addr() + KERNEL_STACK_SIZE - TRAP_CONTEXT_SIZE,
            final(self).base_addr() == old(self).base_addr(),
            final(self).frame() == Some(trap_cx),
    {
        let ptr = self.get_sp() - TRAP_CONTEXT_SIZE;
        self.trap_cx = Some(trap_cx);
        ptr
    }
}

impl UserStack {
    /// Address of the stack's first byte.
    pub closed spec fn base_addr(&self) -> usize {
        self.base
    }

    /// The stack is aligned and ends within the address space.
    pub open spec fn wf(&self) -> bool {
        &&& self.base_addr() % STACK_ALIGN == 0
        &&& self.base_addr() + USER_STACK_SIZE <= usize::MAX
    }

    /// Address of the stack's first byte.
    pub fn base(&self) -> (addr: usize)
        ensures
            addr == self.base_addr(),
    {
        self.base
    }

    /// The initial stack pointer: the address just past the stack.
    pub fn get_sp(&self) -> (sp: usize)
        requires
            self.wf(),
        ensures
            sp == self.base_addr() + USER_STACK_SIZE,
    {
        self.base + USER_STACK_SIZE
    }
}

/// The kernel stacks and the user stacks of all application slots: two
/// arrays in memory, each stack directly behind the one before it.
pub struct AppStacks {
    kernel: [KernelStack; MAX_APP_NUM],
    user: [UserStack; MAX_APP_NUM],
}

/// Whether two arrays of stacks can lie at `kernel_base` and `user_base`:
/// both are aligned, end within the address space, and do not overlap.
pub open spec fn layout_ok(kernel_base: usize, user_base: usize) -> bool {
    &&& kernel_base % STACK_ALIGN == 0
    &&& user_base % STACK_ALIGN == 0
    &&& kernel_base + MAX_APP_NUM * KERNEL_STACK_SIZE <= usize::MAX
    &&& user_base + MAX_APP_NUM * USER_STACK_SIZE <= usize::MAX
    &&& (kernel_base + MAX_APP_NUM * KERNEL_STACK_SIZE <= user_base || user_base + MAX_APP_NUM
        * USER_STACK_SIZE <= kernel_base)
}

/// Whether the byte ranges `[a, a + a_len)` and `[b, b + b_len)` share no
/// address.
pub open spec fn disjoint(a: int, a_len: int, b: int, b_len: int) -> bool {
    a + a_len <= b || b + b_len <= a
}

impl AppStacks {
    /// The kernel stack of application `app_id`.
    pub closed spec fn kernel_stack(&self, app_id: int) -> KernelStack {
        self.kernel[app_id]
    }

    /// The user stack of application `app_id`.
    pub closed spec fn user_stack(&self, app_id: int) -> UserStack {
        self.user[app_id]
    }

    /// Address of the first kernel stack.
    pub open spec fn kernel_base(&self) -> usize {
        self.kernel_stack(0).base_addr()
    }

    /// Address of the first user stack.
    pub open spec fn user_base(&self) -> usize {
        self.user_stack(0).base_addr()
    }

    /// The stacks lie one behind the other from the two base addresses on,
    /// and the two arrays are laid out as `layout_ok` asks.
    pub open spec fn wf(&self) -> bool {
        &&& layout_ok(self.kernel_base(), self.user_base())
        &&& forall|i: int|
            0 <= i < MAX_APP_NUM ==> (#[trigger] self.kernel_stack(i)).base_addr()
                == self.kernel_base() + i * KERNEL_STACK_SIZE
        &&& forall|i: int|
            0 <= i < MAX_APP_NUM ==> (#[trigger] self.user_stack(i)).base_addr() == self.user_base()
                + i * USER_STACK_SIZE
    }

    /// Whether `self` and `other` lie at the same addresses.
    pub open spec fn same_layout(&self, other: &AppStacks) -> bool {
        &&& forall|i: int|
            0 <= i < MAX_APP_NUM ==> (#[trigger] self.kernel_stack(i)).base_addr()
                == other.kernel_stack(i).base_addr()
        &&& forall|i: int|
            0 <= i < MAX_APP_NUM ==> (#[trigger] self.user_stack(i)).base_addr()
                == other.user_stack(i).base_addr()
    }

    /// Whether the kernel stack of each of the first `num_app` applications
    /// holds the trap context that starts the application, made from the
    /// status word `sstatus`.
    pub open spec fn holds_init_contexts(&self, num_app: int, sstatus: usize) -> bool {
        forall|i: int|
            0 <= i < num_app ==> ((#[trigger] self.kernel_stack(i)).frame() matches Some(cx)
                && cx.is_app_init(
                base_of(i) as usize,
                (self.user_stack(i).base_addr() + USER_STACK_SIZE) as usize,
                sstatus,
            ))
    }

    /// The stacks for arrays that lie at `kernel_base` and `user_base`, with
    /// no trap context pushed yet; `None` where that layout is not possible.
    pub fn new(kernel_base: usize, user_base: usize) -> (stacks: Option<AppStacks>)
        ensures
            stacks is Some <==> layout_ok(kernel_base, user_base),
            stacks matches Some(s) ==> {
                &&& s.wf()
                &&& s.kernel_base() == kernel_base
                &&& s.user_base() == user_base
                &&& forall|i: int|
                    0 <= i < MAX_APP_NUM ==> (#[trigger] s.kernel_stack(i)).frame() is None
            },
    {
        if kernel_base % STACK_ALIGN != 0 || user_base % STACK_ALIGN != 0 {
            return None;
        }
        if kernel_base > usize::MAX - MAX_APP_NUM * KERNEL_STACK_SIZE || user_base > usize::MAX
            - MAX_APP_NUM * USER_STACK_SIZE {
            return None;
        }
        if kernel_base + MAX_APP_NUM * KERNEL_STACK_SIZE > user_base && user_base + MAX_APP_NUM
            * USER_STACK_SIZE > kernel_base {
            return None;
        }
        let mut kernel = [KernelStack { base: kernel_base, trap_cx: None }; MAX_APP_NUM];
        let mut user = [UserStack { base: user_base }; MAX_APP_NUM];
        let mut i: usize = 0;
        while i < MAX_APP_NUM
            invariant
                i <= MAX_APP_NUM,
                layout_ok(kernel_base, user_base),
                forall|j: int|
                    0 <= j < MAX_APP_NUM ==> (#[trigger] kernel[j]).trap_cx is None,
                forall|j: int|
                    i <= j < MAX_APP_NUM ==> (#[trigger] kernel[j]).base == kernel_base,
                forall|j: int|
                    i <= j < MAX_APP_NUM ==> (#[trigger] user[j]).base == user_base,
                forall|j: int|
                    0 <= j < i ==> (#[trigger] kernel[j]).base == kernel_base + j
                        * KERNEL_STACK_SIZE,
                forall|j: int|
                    0 <= j < i ==> (#[trigger] user[j]).base == user_base + j * USER_STACK_SIZE,
            decreases MAX_APP_NUM - i,
        {
            kernel[i] = KernelStack { base: kernel_base + i * KERNEL_STACK_SIZE, trap_cx: None };
            user[i] = UserStack { base: user_base + i * USER_STACK_SIZE };
            i += 1;
        }
        Some(AppStacks { kernel, user })
    }

    /// The kernel stack of application `app_id`.
    pub fn kernel(&self, app_id: usize) -> (stack: &KernelStack)
        requires
            app_id < MAX_APP_NUM,
        ensures
            *stack == self.kernel_stack(app_id as int),
    {
        &self.kernel[app_id]
    }

    /// The user stack of application `app_id`.
    pub fn user(&self, app_id: usize) -> (stack: &UserStack)
        requires
            app_id < MAX_APP_NUM,
        ensures
            *stack == self.user_stack(app_id as int),
    {
        &self.user[app_id]
    }

    /// Each stack is well formed, and no two stacks share an address: every
    /// application has a kernel stack and a user stack to itself.
    pub proof fn lemma_stacks_disjoint(&self, i: int, j: int)
        requires
            self.wf(),
            0 <= i < MAX_APP_NUM,
            0 <= j < MAX_APP_NUM,
        ensures
            self.kernel_stack(i).wf(),
            self.user_stack(i).wf(),
            disjoint(
                self.kernel_stack(i).base_addr() as int,
                KERNEL_STACK_SIZE as int,
                self.user_stack(j).base_addr() as int,
                USER_STACK_SIZE as int,
            ),
            i != j ==> disjoint(
                self.kernel_stack(i).base_addr() as int,
                KERNEL_STACK_SIZE as int,
                self.kernel_stack(j).base_addr() as int,
                KERNEL_STACK_SIZE as int,
            ),
            i != j ==> disjoint(
                self.user_stack(i).base_addr() as int,
                USER_STACK_SIZE as int,
                self.user_stack(j).base_addr() as int,
                USER_STACK_SIZE as int,
            ),
    {
        let ki = self.kernel_stack(i);
        let kj = self.kernel_stack(j);
        let ui = self.user_stack(i);
        let uj = self.user_stack(j);
    }
}

/// Address at which application `app_id` is loaded, which is also its entry
/// point.
pub open spec fn base_of(app_id: int) -> int {
    APP_BASE_ADDRESS + app_id * APP_SIZE_LIMIT
}

/// Address at which application `app_id` is loaded.
pub fn get_base_i(app_id: usize) -> (base: usize)
    requires
        app_id < MAX_APP_NUM,
    ensures
        base == base_of(app_id as int),
{
    APP_BASE_ADDRESS + app_id * APP_SIZE_LIMIT
}

/// The load windows of two applications share no address.
pub proof fn lemma_windows_disjoint(i: int, j: int)
    requires
        0 <= i < MAX_APP_NUM,
        0 <= j < MAX_APP_NUM,
        i != j,
    ensures
        disjoint(base_of(i), APP_SIZE_LIMIT as int, base_of(j), APP_SIZE_LIMIT as int),
{
}

/// Pushes the trap context that starts application `app_id` on the
/// application's kernel stack and returns the address at which it lies.
/// `sstatus` is the status register as read at this moment.
pub fn init_app_cx(stacks: &mut AppStacks, app_id: usize, sstatus: usize) -> (ptr: usize)
    requires
        old(stacks).wf(),
        app_id < MAX_APP_NUM,
    ensures
        final(stacks).wf(),
        final(stacks).same_layout(old(stacks)),
        ptr == old(stacks).kernel_stack(app_id as int).base_addr() + KERNEL_STACK_SIZE
            - TRAP_CONTEXT_SIZE,
        final(stacks).kernel_stack(app_id as int).frame() matches Some(cx) && cx.is_app_init(
            base_of(app_id as int) as usize,
            (old(stacks).user_stack(app_id as int).base_addr() + USER_STACK_SIZE) as usize,
            sstatus,
        ),
        forall|i: int|
            0 <= i < MAX_APP_NUM && i != app_id ==> final(stacks).kernel_stack(i) == old(
                stacks,
            ).kernel_stack(i),
{
    proof {
        stacks.lemma_stacks_disjoint(app_id as int, app_id as int);
    }
    let user_sp = stacks.user[app_id].get_sp();
    let cx = TrapContext::app_init_context(get_base_i(app_id), user_sp, sstatus);
    let ghost before = *stacks;
    let ptr = stacks.kernel[app_id].push_context(cx);
    proof {
        assert forall|i: int| 0 <= i < MAX_APP_NUM implies (#[trigger] stacks.kernel_stack(
            i,
        )).base_addr() == before.kernel_stack(i).base_addr() by {}
        assert forall|i: int| 0 <= i < MAX_APP_NUM implies (#[trigger] stacks.user_stack(
            i,
        )).base_addr() == before.user_stack(i).base_addr() by {}
    }
    ptr
}

/// One application image to load: `len` bytes at address `src` go to the
/// start of the load window at address `dst`, the rest of which is zero.
#[derive(Clone, Copy, Debug, PartialEq, Eq)]
pub struct AppImage {
    pub src: usize,
    pub len: usize,
    pub dst: usize,
}

/// Why a table of application images cannot be loaded.
#[derive(Clone, Copy, Debug, PartialEq, Eq)]
pub enum LoadError {
    /// The table does not even hold the number of applications.
    EmptyTable,
    /// The table names more applications than there are slots.
    TooManyApps,
    /// The table does not hold one address more than it has applications.
    TableLength,
    /// The image with this index ends before it starts.
    ImageBounds(usize),
    /// The image with this index is larger than a load window.
    ImageTooLarge(usize),
}

/// Number of applications that `table` names: its first word.
pub open spec fn table_num_app(table: Seq<usize>) -> int {
    table[0] as int
}

/// Address at which image `i` of `table` starts.
pub open spec fn image_start(table: Seq<usize>, i: int) -> int {
    table[i + 1] as int
}

/// Address at which image `i` of `table` ends, where the next one starts.
pub open spec fn image_end(table: Seq<usize>, i: int) -> int {
    table[i + 2] as int
}

/// Whether image `i` of `table` can be loaded: it does not end before it
/// starts, and fits into a load window.
pub open spec fn image_ok(table: Seq<usize>, i: int) -> bool {
    &&& image_start(table, i) <= image_end(table, i)
    &&& image_end(table, i) - image_start(table, i) <= APP_SIZE_LIMIT
}

/// Whether `table` has the form of an application table: the number of
/// applications, at most `MAX_APP_NUM`, then the start of each image and the
/// end of the last.
pub open spec fn table_shape_ok(table: Seq<usize>) -> bool {
    &&& table.len() >= 1
    &&& table_num_app(table) <= MAX_APP_NUM
    &&& table.len() == table_num_app(table) + 2
}

/// What `load_apps` returns for `table` when it fails.
pub open spec fn load_error(table: Seq<usize>, e: LoadError) -> bool {
    match e {
        LoadError::EmptyTable => table.len() == 0,
        LoadError::TooManyApps => table.len() >= 1 && table_num_app(table) > MAX_APP_NUM,
        LoadError::TableLength => table.len() >= 1 && table_num_app(table) <= MAX_APP_NUM
            && table.len() != table_num_app(table) + 2,
        LoadError::ImageBounds(i) => table_shape_ok(table) && i < table_num_app(table)
            && image_start(table, i as int) > image_end(table, i as int) && forall|k: int|
            0 <= k < i ==> image_ok(table, k),
        LoadError::ImageTooLarge(i) => table_shape_ok(table) && i < table_num_app(table)
            && image_start(table, i as int) <= image_end(table, i as int) && !image_ok(
            table,
            i as int,
        ) && forall|k: int| 0 <= k < i ==> image_ok(table, k),
    }
}

/// The number of applications in the link-time table `app_table`, its first
/// word; `None` for an empty table.
pub fn get_num_app(app_table: &[usize]) -> (num_app: Option<usize>)
    ensures
        app_table@.len() == 0 ==> num_app is None,
        app_table@.len() > 0 ==> num_app == Some(app_table@[0]),
{
    if app_table.len() == 0 {
        None
    } else {
        Some(app_table[0])
    }
}

/// Reads the link-time table of application images and says where each image
/// goes: image `i` to the load window of application `i`. Refuses a table
/// that is malformed, names too many applications or holds an image that
/// does not fit its window.
pub fn load_apps(app_table: &[usize]) -> (plan: Result<Vec<AppImage>, LoadError>)
    ensures
        plan is Ok <==> table_shape_ok(app_table@) && forall|i: int|
            0 <= i < table_num_app(app_table@) ==> image_ok(app_table@, i),
        plan matches Ok(images) ==> {
            &&& images@.len() == table_num_app(app_table@)
            &&& forall|i: int|
                0 <= i < images@.len() ==> {
                    &&& (#[trigger] images@[i]).src == image_start(app_table@, i)
                    &&& images@[i].len == image_end(app_table@, i) - image_start(app_table@, i)
                    &&& images@[i].dst == base_of(i)
                }
        },
        plan matches Err(e) ==> load_error(app_table@, e),
{
    if app_table.len() == 0 {
        return Err(LoadError::EmptyTable);
    }
    let num_app = app_table[0];
    if num_app > MAX_APP_NUM {
        return Err(LoadError::TooManyApps);
    }
    if app_table.len() != num_app + 2 {
        return Err(LoadError::TableLength);
    }
    let mut images: Vec<AppImage> = Vec::new();
    let mut i: usize = 0;
    while i < num_app
        invariant
            i <= num_app,
            num_app == table_num_app(app_table@),
            table_shape_ok(app_table@),
            images@.len() == i,
            forall|k: int| 0 <= k < i ==> image_ok(app_table@, k),
            forall|k: int|
                0 <= k < i ==> {
                    &&& (#[trigger] images@[k]).src == image_start(app_table@, k)
                    &&& images@[k].len == image_end(app_table@, k) - image_start(app_table@, k)
                    &&& images@[k].dst == base_of(k)
                },
        decreases num_app - i,
    {
        let start = app_table[i + 1];
        let end = app_table[i + 2];
        if start > end {
            assert(!image_ok(app_table@, i as int));
            return Err(LoadError::ImageBounds(i));
        }
        if end - start > APP_SIZE_LIMIT {
            assert(!image_ok(app_table@, i as int));
            return Err(LoadError::ImageTooLarge(i));
        }
        images.push(AppImage { src: start, len: end - start, dst: get_base_i(i) });
        i += 1;
    }
    Ok(images)
}

/// What a load window holds once `image` is loaded into it: the image, then
/// zeros up to the window's length `window_len`.
pub open spec fn loaded(image: Seq<u8>, window_len: int) -> Seq<u8> {
    Seq::new(window_len as nat, |j: int| if j < image.len() { image[j] } else { 0u8 })
}

/// Clears the load window `window` and copies `image` to its start. Returns
/// whether the image fits; where it does not, the window is left as it was.
pub fn load_image(window: &mut [u8], image: &[u8]) -> (fits: bool)
    ensures
        fits <==> image@.len() <= old(window)@.len(),
        fits ==> final(window)@ == loaded(image@, old(window)@.len() as int),
        !fits ==> final(window)@ == old(window)@,
{
    let n = window.len();
    let m = image.len();
    if m > n {
        return false;
    }
    let mut i: usize = 0;
    while i < n
        invariant
            i <= n,
            n == window@.len(),
            m == image@.len(),
            m <= n,
            forall|j: int| 0 <= j < i ==> window@[j] == loaded(image@, n as int)[j],
        decreases n - i,
    {
        if i < m {
            window[i] = image[i];
        } else {
            window[i] = 0;
        }
        i += 1;
    }
    true
}

} // verus!

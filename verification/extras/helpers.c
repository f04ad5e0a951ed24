// SPDX-License-Identifier: GPL-2.0
/* What the Rust side cannot name: macros, inline functions and structure fields. */

#include <linux/fs.h>
#include <linux/module.h>
#include <linux/mutex.h>
#include <linux/uaccess.h>

static DEFINE_MUTEX(proc_ram_mutex);

loff_t *rust_helper_file_pos(struct file *file)
{
	return &file->f_pos;
}

unsigned int rust_helper_file_flags(struct file *file)
{
	return file->f_flags;
}

struct rw_semaphore *rust_helper_file_rwsem(struct file *file)
{
	return &file_inode(file)->i_rwsem;
}

unsigned long rust_helper_copy_to_user(void __user *to, const void *from, unsigned long n)
{
	return copy_to_user(to, from, n);
}

unsigned long rust_helper_copy_from_user(void *to, const void __user *from, unsigned long n)
{
	return copy_from_user(to, from, n);
}

void rust_helper_proc_ram_lock(void)
{
	mutex_lock(&proc_ram_mutex);
}

void rust_helper_proc_ram_unlock(void)
{
	mutex_unlock(&proc_ram_mutex);
}

extern int rust_proc_ram_file_init(void);
extern void rust_proc_ram_file_exit(void);

static int __init proc_ram_file_init(void)
{
	return rust_proc_ram_file_init();
}

static void __exit proc_ram_file_exit(void)
{
	rust_proc_ram_file_exit();
}

module_init(proc_ram_file_init);
module_exit(proc_ram_file_exit);
MODULE_AUTHOR("Rust for Linux Contributors");
MODULE_DESCRIPTION("Rust proc ram file example");
MODULE_LICENSE("GPL");

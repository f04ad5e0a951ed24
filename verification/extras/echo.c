// SPDX-License-Identifier: GPL-2.0
/* Entry point of the module that only announces itself. */

#include <linux/module.h>

extern int rust_proc_echo_init(void);

static int __init proc_echo_init(void)
{
	return rust_proc_echo_init();
}

static void __exit proc_echo_exit(void)
{
}

module_init(proc_echo_init);
module_exit(proc_echo_exit);
MODULE_AUTHOR("Rust for Linux Contributors");
MODULE_DESCRIPTION("Rust proc file echo example");
MODULE_LICENSE("GPL");

# amect

Account, appearance and login settings of a Windows machine: renaming the
session's user, changing passwords, administrator membership, the account
picture, the lock screen image and blur, the login screen's user name
requirement and autologon.

`src/` is the verified library. It decides what the tool does and proves
it: the command lines it runs, the registry edits it makes, how it
reads what `WMIC` and PowerShell print, the UTF-16 strings it hands to the
account API, the order of operations of the command line, the questions of
the interactive mode, and the step-by-step replacement of the lock screen
image and the account picture (`job`, `misc::lockscreen`, `misc::profile`),
including the decoding, scaling and PNG encoding of the account pictures
(`picture`, through the `image` crate).

`app/` is the program around it: argument parsing, the prompts, and the
calls into Windows (processes, registry, `NetUserSetInfo`,
`GetUserNameW`) and the file system. It carries out what the library asks
for and hands the answers back, telling a failure because something does
not exist apart from other failures.

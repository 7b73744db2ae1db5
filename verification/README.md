# alb1

A Raspberry Pi system in three programs, with the logic of each stated and
proved with Verus:

- the game kernel: peg solitaire ("Steckhalma") drawn into the framebuffer,
  with a text console, the firmware mailbox, GPIO, mini UART, timer and
  interrupt register arithmetic;
- the bootloader and the input kernel: their mailbox messages, GPIO steps,
  frame drawing, key bindings and heap;
- the loader: the command line and configuration language, the keyboard
  translation, and the framing of a serial transmission.

`src/` is the verified library. Functions there compute what is written to
a register, sent to the firmware or drawn; they do no I/O. `app/` carries
their results out: volatile register access, mailbox exchanges, files,
threads and the serial line. `tests/` runs the library on concrete values.
